//! The output power levels of the radio.
use vstd::prelude::*;

verus! {

/// An output power that the radio offers.
#[derive(PartialEq, Eq, Structural, Debug, Copy, Clone)]
pub enum TxPower {
    Positive4dBM,
    Positive3dBM,
    ZerodBm,
    Negative4dBm,
    Negative8dBm,
    Negative12dBm,
    Negative16dBm,
    Negative20dBm,
    Negative40dBm,
}

impl TxPower {
    /// The level in dBm.
    pub open spec fn dbm(self) -> int {
        match self {
            TxPower::Positive4dBM => 4,
            TxPower::Positive3dBM => 3,
            TxPower::ZerodBm => 0,
            TxPower::Negative4dBm => -4,
            TxPower::Negative8dBm => -8,
            TxPower::Negative12dBm => -12,
            TxPower::Negative16dBm => -16,
            TxPower::Negative20dBm => -20,
            TxPower::Negative40dBm => -40,
        }
    }

    /// The byte that stands for the level in the TXPOWER register: the level
    /// in dBm as an 8-bit two's complement number.
    pub open spec fn code(self) -> nat {
        if self.dbm() >= 0 {
            self.dbm() as nat
        } else {
            (256 + self.dbm()) as nat
        }
    }

    /// Whether the radio offers a level of `dbm` dBm.
    pub open spec fn supported(dbm: int) -> bool {
        dbm == 4 || dbm == 3 || dbm == 0 || dbm == -4 || dbm == -8 || dbm == -12 || dbm == -16
            || dbm == -20 || dbm == -40
    }

    /// The level of `dbm` dBm, if the radio offers it.
    pub open spec fn from_dbm_spec(dbm: int) -> Option<TxPower> {
        if dbm == 4 {
            Some(TxPower::Positive4dBM)
        } else if dbm == 3 {
            Some(TxPower::Positive3dBM)
        } else if dbm == 0 {
            Some(TxPower::ZerodBm)
        } else if dbm == -4 {
            Some(TxPower::Negative4dBm)
        } else if dbm == -8 {
            Some(TxPower::Negative8dBm)
        } else if dbm == -12 {
            Some(TxPower::Negative12dBm)
        } else if dbm == -16 {
            Some(TxPower::Negative16dBm)
        } else if dbm == -20 {
            Some(TxPower::Negative20dBm)
        } else if dbm == -40 {
            Some(TxPower::Negative40dBm)
        } else {
            None
        }
    }

    /// The level that a register byte stands for, if it stands for one.
    pub open spec fn from_code(code: nat) -> Option<TxPower> {
        if code < 128 {
            TxPower::from_dbm_spec(code as int)
        } else {
            TxPower::from_dbm_spec(code - 256)
        }
    }

    /// The level in dBm.
    pub fn as_dbm(&self) -> (dbm: i8)
        ensures
            dbm == self.dbm(),
    {
        match *self {
            TxPower::Positive4dBM => 4,
            TxPower::Positive3dBM => 3,
            TxPower::ZerodBm => 0,
            TxPower::Negative4dBm => -4,
            TxPower::Negative8dBm => -8,
            TxPower::Negative12dBm => -12,
            TxPower::Negative16dBm => -16,
            TxPower::Negative20dBm => -20,
            TxPower::Negative40dBm => -40,
        }
    }

    /// The word to store in the TXPOWER register.
    pub fn register_value(&self) -> (word: u32)
        ensures
            word == self.code(),
            word <= 0xff,
    {
        match *self {
            TxPower::Positive4dBM => 0x04,
            TxPower::Positive3dBM => 0x03,
            TxPower::ZerodBm => 0x00,
            TxPower::Negative4dBm => 0xfc,
            TxPower::Negative8dBm => 0xf8,
            TxPower::Negative12dBm => 0xf4,
            TxPower::Negative16dBm => 0xf0,
            TxPower::Negative20dBm => 0xec,
            TxPower::Negative40dBm => 0xd8,
        }
    }

    /// The level of `dbm` dBm, if the radio offers it.
    pub fn from_dbm(dbm: i8) -> (res: Result<TxPower, ()>)
        ensures
            res is Ok <==> TxPower::supported(dbm as int),
            res matches Ok(power) ==> power.dbm() == dbm,
            res == match TxPower::from_dbm_spec(dbm as int) {
                Some(power) => Ok::<TxPower, ()>(power),
                None => Err::<TxPower, ()>(()),
            },
    {
        match dbm {
            4 => Ok(TxPower::Positive4dBM),
            3 => Ok(TxPower::Positive3dBM),
            0 => Ok(TxPower::ZerodBm),
            -4 => Ok(TxPower::Negative4dBm),
            -8 => Ok(TxPower::Negative8dBm),
            -12 => Ok(TxPower::Negative12dBm),
            -16 => Ok(TxPower::Negative16dBm),
            -20 => Ok(TxPower::Negative20dBm),
            -40 => Ok(TxPower::Negative40dBm),
            _ => Err(()),
        }
    }
}

impl TryFrom<u8> for TxPower {
    type Error = ();

    fn try_from(val: u8) -> (res: Result<TxPower, ()>) {
        match val {
            0x04 => Ok(TxPower::Positive4dBM),
            0x03 => Ok(TxPower::Positive3dBM),
            0x00 => Ok(TxPower::ZerodBm),
            0xfc => Ok(TxPower::Negative4dBm),
            0xf8 => Ok(TxPower::Negative8dBm),
            0xf4 => Ok(TxPower::Negative12dBm),
            0xf0 => Ok(TxPower::Negative16dBm),
            0xec => Ok(TxPower::Negative20dBm),
            0xd8 => Ok(TxPower::Negative40dBm),
            _ => Err(()),
        }
    }
}

impl vstd::std_specs::convert::TryFromSpecImpl<u8> for TxPower {
    open spec fn obeys_try_from_spec() -> bool {
        true
    }

    open spec fn try_from_spec(val: u8) -> Result<TxPower, ()> {
        match TxPower::from_code(val as nat) {
            Some(power) => Ok(power),
            None => Err(()),
        }
    }
}

/// A level and its register byte name each other, and exactly the nine
/// supported levels have one.
pub proof fn lemma_power_codes(power: TxPower, dbm: int)
    ensures
        TxPower::from_dbm_spec(power.dbm()) == Some(power),
        TxPower::from_code(power.code()) == Some(power),
        TxPower::from_dbm_spec(dbm) is Some <==> TxPower::supported(dbm),
        TxPower::from_dbm_spec(dbm) matches Some(p) ==> p.dbm() == dbm,
{
}

} // verus!
