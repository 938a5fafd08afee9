//! The sixteen 2.4 GHz channels of IEEE 802.15.4 (channel page 0).
//!
//! Channel `k`, for `k` from 11 to 26, is centred on `2405 + 5 * (k - 11)` MHz.
//! The radio's FREQUENCY register holds the distance from 2400 MHz.
use vstd::prelude::*;

verus! {

/// Lowest channel number of the 2.4 GHz band.
pub const FIRST_CHANNEL: u8 = 11;

/// Highest channel number of the 2.4 GHz band.
pub const LAST_CHANNEL: u8 = 26;

/// A channel of the 2.4 GHz band.
#[derive(PartialEq, Eq, Structural, Debug, Copy, Clone)]
pub enum RadioChannel {
    DataChannel11,
    DataChannel12,
    DataChannel13,
    DataChannel14,
    DataChannel15,
    DataChannel16,
    DataChannel17,
    DataChannel18,
    DataChannel19,
    DataChannel20,
    DataChannel21,
    DataChannel22,
    DataChannel23,
    DataChannel24,
    DataChannel25,
    DataChannel26,
}

impl RadioChannel {
    /// Position of the channel within the band, counted from zero.
    pub open spec fn ordinal(self) -> nat {
        match self {
            RadioChannel::DataChannel11 => 0,
            RadioChannel::DataChannel12 => 1,
            RadioChannel::DataChannel13 => 2,
            RadioChannel::DataChannel14 => 3,
            RadioChannel::DataChannel15 => 4,
            RadioChannel::DataChannel16 => 5,
            RadioChannel::DataChannel17 => 6,
            RadioChannel::DataChannel18 => 7,
            RadioChannel::DataChannel19 => 8,
            RadioChannel::DataChannel20 => 9,
            RadioChannel::DataChannel21 => 10,
            RadioChannel::DataChannel22 => 11,
            RadioChannel::DataChannel23 => 12,
            RadioChannel::DataChannel24 => 13,
            RadioChannel::DataChannel25 => 14,
            RadioChannel::DataChannel26 => 15,
        }
    }

    /// The IEEE 802.15.4 channel number, 11 to 26.
    pub open spec fn index(self) -> nat {
        11 + self.ordinal()
    }

    /// Centre frequency in MHz above 2400 MHz: 5, 10, ..., 80.
    pub open spec fn frequency_offset(self) -> nat {
        5 * self.ordinal() + 5
    }

    /// The channel with the given number, if the band has one.
    pub open spec fn from_index(val: nat) -> Option<RadioChannel> {
        if val == 11 {
            Some(RadioChannel::DataChannel11)
        } else if val == 12 {
            Some(RadioChannel::DataChannel12)
        } else if val == 13 {
            Some(RadioChannel::DataChannel13)
        } else if val == 14 {
            Some(RadioChannel::DataChannel14)
        } else if val == 15 {
            Some(RadioChannel::DataChannel15)
        } else if val == 16 {
            Some(RadioChannel::DataChannel16)
        } else if val == 17 {
            Some(RadioChannel::DataChannel17)
        } else if val == 18 {
            Some(RadioChannel::DataChannel18)
        } else if val == 19 {
            Some(RadioChannel::DataChannel19)
        } else if val == 20 {
            Some(RadioChannel::DataChannel20)
        } else if val == 21 {
            Some(RadioChannel::DataChannel21)
        } else if val == 22 {
            Some(RadioChannel::DataChannel22)
        } else if val == 23 {
            Some(RadioChannel::DataChannel23)
        } else if val == 24 {
            Some(RadioChannel::DataChannel24)
        } else if val == 25 {
            Some(RadioChannel::DataChannel25)
        } else if val == 26 {
            Some(RadioChannel::DataChannel26)
        } else {
            None
        }
    }

    /// The IEEE 802.15.4 channel number, 11 to 26.
    pub fn get_channel_index(&self) -> (index: u8)
        ensures
            index == self.index(),
            FIRST_CHANNEL <= index <= LAST_CHANNEL,
    {
        match *self {
            RadioChannel::DataChannel11 => 11,
            RadioChannel::DataChannel12 => 12,
            RadioChannel::DataChannel13 => 13,
            RadioChannel::DataChannel14 => 14,
            RadioChannel::DataChannel15 => 15,
            RadioChannel::DataChannel16 => 16,
            RadioChannel::DataChannel17 => 17,
            RadioChannel::DataChannel18 => 18,
            RadioChannel::DataChannel19 => 19,
            RadioChannel::DataChannel20 => 20,
            RadioChannel::DataChannel21 => 21,
            RadioChannel::DataChannel22 => 22,
            RadioChannel::DataChannel23 => 23,
            RadioChannel::DataChannel24 => 24,
            RadioChannel::DataChannel25 => 25,
            RadioChannel::DataChannel26 => 26,
        }
    }

    /// The value that selects this channel in the FREQUENCY register.
    pub fn frequency(&self) -> (mhz: u32)
        ensures
            mhz == self.frequency_offset(),
            mhz == 5 * (self.index() - 11) + 5,
            mhz == 5 * self.index() - 50,
    {
        let index: u32 = self.get_channel_index() as u32;
        5 * index - 50
    }
}

impl TryFrom<u8> for RadioChannel {
    type Error = ();

    fn try_from(val: u8) -> (res: Result<RadioChannel, ()>)
    {
        match val {
            11 => Ok(RadioChannel::DataChannel11),
            12 => Ok(RadioChannel::DataChannel12),
            13 => Ok(RadioChannel::DataChannel13),
            14 => Ok(RadioChannel::DataChannel14),
            15 => Ok(RadioChannel::DataChannel15),
            16 => Ok(RadioChannel::DataChannel16),
            17 => Ok(RadioChannel::DataChannel17),
            18 => Ok(RadioChannel::DataChannel18),
            19 => Ok(RadioChannel::DataChannel19),
            20 => Ok(RadioChannel::DataChannel20),
            21 => Ok(RadioChannel::DataChannel21),
            22 => Ok(RadioChannel::DataChannel22),
            23 => Ok(RadioChannel::DataChannel23),
            24 => Ok(RadioChannel::DataChannel24),
            25 => Ok(RadioChannel::DataChannel25),
            26 => Ok(RadioChannel::DataChannel26),
            _ => Err(()),
        }
    }
}

impl vstd::std_specs::convert::TryFromSpecImpl<u8> for RadioChannel {
    open spec fn obeys_try_from_spec() -> bool {
        true
    }

    open spec fn try_from_spec(val: u8) -> Result<RadioChannel, ()> {
        match RadioChannel::from_index(val as nat) {
            Some(channel) => Ok(channel),
            None => Err(()),
        }
    }
}

/// Channel numbers and channels correspond one to one: a number names a
/// channel exactly when it lies in 11..=26, and that channel carries the
/// number.
pub proof fn lemma_channel_numbering(val: nat)
    ensures
        RadioChannel::from_index(val) is Some <==> 11 <= val <= 26,
        RadioChannel::from_index(val) matches Some(channel) ==> channel.index() == val,
{
}

/// Reading a channel's number and looking the number up again gives the
/// channel back.
pub proof fn lemma_channel_round_trip(channel: RadioChannel)
    ensures
        RadioChannel::from_index(channel.index()) == Some(channel),
{
}

} // verus!
