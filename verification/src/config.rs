//! The bit fields of the peripheral's registers, and the words that the
//! driver stores in the configuration registers.
use vstd::prelude::*;
use crate::bitfield::Field;
use crate::channel::RadioChannel;
use crate::constants::{
    IEEE802154_CCA_CORR_CNT, IEEE802154_CCA_CORR_THRESH, IEEE802154_CCA_ED_THRESH,
    IEEE802154_CCA_MODE, RADIO_MODE_IEEE802154_250KBIT, RADIO_PAYLOAD_LENGTH,
};
use crate::power::TxPower;
use crate::registers::{Event, Register};

verus! {

/// PCNF0.PLEN: a preamble of 32 zero bits, as IEEE 802.15.4 uses.
pub const PLEN_THIRTYTWOZEROS: u32 = 2;

/// PCNF0.CRCINC: the length field counts the CRC.
pub const CRCINC_INCLUDE: u32 = 1;

/// PCNF0.LFLEN: the length field is eight bits wide.
pub const LFLEN_IEEE802154: u32 = 8;

/// CRCCNF.LEN: a CRC of two bytes.
pub const CRC_LEN_TWO: u32 = 2;

/// CRCCNF.SKIPADDR: the CRC starts behind the length field.
pub const CRC_SKIPADDR_IEEE802154: u32 = 2;

/// MODECNF0.RU: fast ramp-up.
pub const RU_FAST: u32 = 1;

/// MODECNF0.DTX: transmit the centre frequency while idle.
pub const DTX_CENTER: u32 = 2;

/// TXADDRESS.ADDRESS: transmit on logical address 0.
pub const TX_LOGICAL_ADDRESS: u32 = 0;

/// RXADDRESSES.ADDRESS: receive on logical address 0 only.
pub const RX_LOGICAL_ADDRESSES: u32 = 1;

/// The word the driver stores in PCNF0.
pub const PCNF0_WORD: u32 = 0x0600_0008;

/// The word the driver stores in PCNF1.
pub const PCNF1_WORD: u32 = 0x0000_00ff;

/// The word the driver stores in CRCCNF.
pub const CRCCNF_WORD: u32 = 0x0000_0202;

/// The word the driver stores in MODECNF0.
pub const MODECNF0_WORD: u32 = 0x0000_0201;

/// The word the driver stores in CCACTRL.
pub const CCACTRL_WORD: u32 = 0x0214_1400;

/// The interrupt sources the driver listens to: READY, END, FRAMESTART,
/// CCAIDLE and CCABUSY.
pub const DRIVER_INTERRUPTS: u32 = 0x0006_4009;

/// The named bit fields of the configuration and status registers.
#[derive(PartialEq, Eq, Structural, Debug, Copy, Clone)]
pub enum BitField {
    ShortsReadyStart,
    ShortsEndDisable,
    ShortsDisabledTxEn,
    ShortsDisabledRxEn,
    ShortsAddressRssiStart,
    ShortsEndStart,
    ShortsAddressBcStart,
    ShortsDisabledRssiStop,
    CrcStatusCrcOk,
    RxMatchMatch,
    RxCrcCrc,
    DaiIndex,
    PacketPtrPointer,
    FrequencyFrequency,
    FrequencyMap,
    TxPowerPower,
    ModeMode,
    Pcnf0LfLen,
    Pcnf0S0Len,
    Pcnf0S1Len,
    Pcnf0S1Incl,
    Pcnf0PLen,
    Pcnf0CrcInc,
    Pcnf1MaxLen,
    Pcnf1StatLen,
    Pcnf1BaLen,
    Pcnf1Endian,
    Pcnf1WhiteEn,
    Base0Base,
    Base1Base,
    Prefix0Ap0,
    Prefix0Ap1,
    Prefix0Ap2,
    Prefix0Ap3,
    Prefix1Ap4,
    Prefix1Ap5,
    Prefix1Ap6,
    Prefix1Ap7,
    TxAddressAddress,
    RxAddressesAddress,
    CrcCnfLen,
    CrcCnfSkipAddr,
    CrcPolyCrcPoly,
    CrcInitCrcInit,
    TifsTifs,
    RssiSampleRssiSample,
    StateState,
    DataWhiteIvDataWhiteIv,
    BccBcc,
    DaCnfEna,
    DaCnfTxAdd,
    MhrMatchConfConfig,
    MhrMatchMasPattern,
    ModeCnf0Ru,
    ModeCnf0Dtx,
    CcaCtrlCcaMode,
    CcaCtrlCcaEdThresh,
    CcaCtrlCcaCorrThresh,
    CcaCtrlCcaCorrCnt,
    PowerPower,
}

impl BitField {
    /// The register that holds the field.
    pub open spec fn register_of(self) -> Register {
        match self {
            BitField::ShortsReadyStart => Register::Shorts,
            BitField::ShortsEndDisable => Register::Shorts,
            BitField::ShortsDisabledTxEn => Register::Shorts,
            BitField::ShortsDisabledRxEn => Register::Shorts,
            BitField::ShortsAddressRssiStart => Register::Shorts,
            BitField::ShortsEndStart => Register::Shorts,
            BitField::ShortsAddressBcStart => Register::Shorts,
            BitField::ShortsDisabledRssiStop => Register::Shorts,
            BitField::CrcStatusCrcOk => Register::CrcStatus,
            BitField::RxMatchMatch => Register::RxMatch,
            BitField::RxCrcCrc => Register::RxCrc,
            BitField::DaiIndex => Register::Dai,
            BitField::PacketPtrPointer => Register::PacketPtr,
            BitField::FrequencyFrequency => Register::Frequency,
            BitField::FrequencyMap => Register::Frequency,
            BitField::TxPowerPower => Register::TxPower,
            BitField::ModeMode => Register::Mode,
            BitField::Pcnf0LfLen => Register::Pcnf0,
            BitField::Pcnf0S0Len => Register::Pcnf0,
            BitField::Pcnf0S1Len => Register::Pcnf0,
            BitField::Pcnf0S1Incl => Register::Pcnf0,
            BitField::Pcnf0PLen => Register::Pcnf0,
            BitField::Pcnf0CrcInc => Register::Pcnf0,
            BitField::Pcnf1MaxLen => Register::Pcnf1,
            BitField::Pcnf1StatLen => Register::Pcnf1,
            BitField::Pcnf1BaLen => Register::Pcnf1,
            BitField::Pcnf1Endian => Register::Pcnf1,
            BitField::Pcnf1WhiteEn => Register::Pcnf1,
            BitField::Base0Base => Register::Base0,
            BitField::Base1Base => Register::Base1,
            BitField::Prefix0Ap0 => Register::Prefix0,
            BitField::Prefix0Ap1 => Register::Prefix0,
            BitField::Prefix0Ap2 => Register::Prefix0,
            BitField::Prefix0Ap3 => Register::Prefix0,
            BitField::Prefix1Ap4 => Register::Prefix1,
            BitField::Prefix1Ap5 => Register::Prefix1,
            BitField::Prefix1Ap6 => Register::Prefix1,
            BitField::Prefix1Ap7 => Register::Prefix1,
            BitField::TxAddressAddress => Register::TxAddress,
            BitField::RxAddressesAddress => Register::RxAddresses,
            BitField::CrcCnfLen => Register::CrcCnf,
            BitField::CrcCnfSkipAddr => Register::CrcCnf,
            BitField::CrcPolyCrcPoly => Register::CrcPoly,
            BitField::CrcInitCrcInit => Register::CrcInit,
            BitField::TifsTifs => Register::Tifs,
            BitField::RssiSampleRssiSample => Register::RssiSample,
            BitField::StateState => Register::State,
            BitField::DataWhiteIvDataWhiteIv => Register::DataWhiteIv,
            BitField::BccBcc => Register::Bcc,
            BitField::DaCnfEna => Register::DaCnf,
            BitField::DaCnfTxAdd => Register::DaCnf,
            BitField::MhrMatchConfConfig => Register::MhrMatchConf,
            BitField::MhrMatchMasPattern => Register::MhrMatchMas,
            BitField::ModeCnf0Ru => Register::ModeCnf0,
            BitField::ModeCnf0Dtx => Register::ModeCnf0,
            BitField::CcaCtrlCcaMode => Register::CcaCtrl,
            BitField::CcaCtrlCcaEdThresh => Register::CcaCtrl,
            BitField::CcaCtrlCcaCorrThresh => Register::CcaCtrl,
            BitField::CcaCtrlCcaCorrCnt => Register::CcaCtrl,
            BitField::PowerPower => Register::Power,
        }
    }

    /// Where the field lies in its register.
    pub open spec fn layout(self) -> Field {
        match self {
            BitField::ShortsReadyStart => Field { shift: 0, width: 1 },
            BitField::ShortsEndDisable => Field { shift: 1, width: 1 },
            BitField::ShortsDisabledTxEn => Field { shift: 2, width: 1 },
            BitField::ShortsDisabledRxEn => Field { shift: 3, width: 1 },
            BitField::ShortsAddressRssiStart => Field { shift: 4, width: 1 },
            BitField::ShortsEndStart => Field { shift: 5, width: 1 },
            BitField::ShortsAddressBcStart => Field { shift: 6, width: 1 },
            BitField::ShortsDisabledRssiStop => Field { shift: 8, width: 1 },
            BitField::CrcStatusCrcOk => Field { shift: 0, width: 1 },
            BitField::RxMatchMatch => Field { shift: 0, width: 3 },
            BitField::RxCrcCrc => Field { shift: 0, width: 24 },
            BitField::DaiIndex => Field { shift: 0, width: 3 },
            BitField::PacketPtrPointer => Field { shift: 0, width: 32 },
            BitField::FrequencyFrequency => Field { shift: 0, width: 7 },
            BitField::FrequencyMap => Field { shift: 8, width: 1 },
            BitField::TxPowerPower => Field { shift: 0, width: 8 },
            BitField::ModeMode => Field { shift: 0, width: 4 },
            BitField::Pcnf0LfLen => Field { shift: 0, width: 4 },
            BitField::Pcnf0S0Len => Field { shift: 8, width: 1 },
            BitField::Pcnf0S1Len => Field { shift: 16, width: 4 },
            BitField::Pcnf0S1Incl => Field { shift: 20, width: 1 },
            BitField::Pcnf0PLen => Field { shift: 24, width: 2 },
            BitField::Pcnf0CrcInc => Field { shift: 26, width: 1 },
            BitField::Pcnf1MaxLen => Field { shift: 0, width: 8 },
            BitField::Pcnf1StatLen => Field { shift: 8, width: 8 },
            BitField::Pcnf1BaLen => Field { shift: 16, width: 3 },
            BitField::Pcnf1Endian => Field { shift: 24, width: 1 },
            BitField::Pcnf1WhiteEn => Field { shift: 25, width: 1 },
            BitField::Base0Base => Field { shift: 0, width: 32 },
            BitField::Base1Base => Field { shift: 0, width: 32 },
            BitField::Prefix0Ap0 => Field { shift: 0, width: 8 },
            BitField::Prefix0Ap1 => Field { shift: 8, width: 8 },
            BitField::Prefix0Ap2 => Field { shift: 16, width: 8 },
            BitField::Prefix0Ap3 => Field { shift: 24, width: 8 },
            BitField::Prefix1Ap4 => Field { shift: 0, width: 8 },
            BitField::Prefix1Ap5 => Field { shift: 8, width: 8 },
            BitField::Prefix1Ap6 => Field { shift: 16, width: 8 },
            BitField::Prefix1Ap7 => Field { shift: 24, width: 8 },
            BitField::TxAddressAddress => Field { shift: 0, width: 3 },
            BitField::RxAddressesAddress => Field { shift: 0, width: 8 },
            BitField::CrcCnfLen => Field { shift: 0, width: 2 },
            BitField::CrcCnfSkipAddr => Field { shift: 8, width: 2 },
            BitField::CrcPolyCrcPoly => Field { shift: 0, width: 24 },
            BitField::CrcInitCrcInit => Field { shift: 0, width: 24 },
            BitField::TifsTifs => Field { shift: 0, width: 8 },
            BitField::RssiSampleRssiSample => Field { shift: 0, width: 7 },
            BitField::StateState => Field { shift: 0, width: 4 },
            BitField::DataWhiteIvDataWhiteIv => Field { shift: 0, width: 7 },
            BitField::BccBcc => Field { shift: 0, width: 32 },
            BitField::DaCnfEna => Field { shift: 0, width: 8 },
            BitField::DaCnfTxAdd => Field { shift: 8, width: 8 },
            BitField::MhrMatchConfConfig => Field { shift: 0, width: 32 },
            BitField::MhrMatchMasPattern => Field { shift: 0, width: 32 },
            BitField::ModeCnf0Ru => Field { shift: 0, width: 1 },
            BitField::ModeCnf0Dtx => Field { shift: 8, width: 2 },
            BitField::CcaCtrlCcaMode => Field { shift: 0, width: 3 },
            BitField::CcaCtrlCcaEdThresh => Field { shift: 8, width: 8 },
            BitField::CcaCtrlCcaCorrThresh => Field { shift: 16, width: 8 },
            BitField::CcaCtrlCcaCorrCnt => Field { shift: 24, width: 8 },
            BitField::PowerPower => Field { shift: 0, width: 1 },
        }
    }

    /// The register that holds the field.
    pub fn register(&self) -> (register: Register)
        ensures
            register == self.register_of(),
            register.wf(),
    {
        match *self {
            BitField::ShortsReadyStart
            | BitField::ShortsEndDisable
            | BitField::ShortsDisabledTxEn
            | BitField::ShortsDisabledRxEn
            | BitField::ShortsAddressRssiStart
            | BitField::ShortsEndStart
            | BitField::ShortsAddressBcStart
            | BitField::ShortsDisabledRssiStop => Register::Shorts,
            BitField::CrcStatusCrcOk => Register::CrcStatus,
            BitField::RxMatchMatch => Register::RxMatch,
            BitField::RxCrcCrc => Register::RxCrc,
            BitField::DaiIndex => Register::Dai,
            BitField::PacketPtrPointer => Register::PacketPtr,
            BitField::FrequencyFrequency | BitField::FrequencyMap => Register::Frequency,
            BitField::TxPowerPower => Register::TxPower,
            BitField::ModeMode => Register::Mode,
            BitField::Pcnf0LfLen
            | BitField::Pcnf0S0Len
            | BitField::Pcnf0S1Len
            | BitField::Pcnf0S1Incl
            | BitField::Pcnf0PLen
            | BitField::Pcnf0CrcInc => Register::Pcnf0,
            BitField::Pcnf1MaxLen
            | BitField::Pcnf1StatLen
            | BitField::Pcnf1BaLen
            | BitField::Pcnf1Endian
            | BitField::Pcnf1WhiteEn => Register::Pcnf1,
            BitField::Base0Base => Register::Base0,
            BitField::Base1Base => Register::Base1,
            BitField::Prefix0Ap0
            | BitField::Prefix0Ap1
            | BitField::Prefix0Ap2
            | BitField::Prefix0Ap3 => Register::Prefix0,
            BitField::Prefix1Ap4
            | BitField::Prefix1Ap5
            | BitField::Prefix1Ap6
            | BitField::Prefix1Ap7 => Register::Prefix1,
            BitField::TxAddressAddress => Register::TxAddress,
            BitField::RxAddressesAddress => Register::RxAddresses,
            BitField::CrcCnfLen | BitField::CrcCnfSkipAddr => Register::CrcCnf,
            BitField::CrcPolyCrcPoly => Register::CrcPoly,
            BitField::CrcInitCrcInit => Register::CrcInit,
            BitField::TifsTifs => Register::Tifs,
            BitField::RssiSampleRssiSample => Register::RssiSample,
            BitField::StateState => Register::State,
            BitField::DataWhiteIvDataWhiteIv => Register::DataWhiteIv,
            BitField::BccBcc => Register::Bcc,
            BitField::DaCnfEna | BitField::DaCnfTxAdd => Register::DaCnf,
            BitField::MhrMatchConfConfig => Register::MhrMatchConf,
            BitField::MhrMatchMasPattern => Register::MhrMatchMas,
            BitField::ModeCnf0Ru | BitField::ModeCnf0Dtx => Register::ModeCnf0,
            BitField::CcaCtrlCcaMode
            | BitField::CcaCtrlCcaEdThresh
            | BitField::CcaCtrlCcaCorrThresh
            | BitField::CcaCtrlCcaCorrCnt => Register::CcaCtrl,
            BitField::PowerPower => Register::Power,
        }
    }

    /// Where the field lies in its register.
    pub fn field(&self) -> (field: Field)
        ensures
            field == self.layout(),
            field.wf(),
    {
        match *self {
            BitField::ShortsReadyStart => Field { shift: 0, width: 1 },
            BitField::ShortsEndDisable => Field { shift: 1, width: 1 },
            BitField::ShortsDisabledTxEn => Field { shift: 2, width: 1 },
            BitField::ShortsDisabledRxEn => Field { shift: 3, width: 1 },
            BitField::ShortsAddressRssiStart => Field { shift: 4, width: 1 },
            BitField::ShortsEndStart => Field { shift: 5, width: 1 },
            BitField::ShortsAddressBcStart => Field { shift: 6, width: 1 },
            BitField::ShortsDisabledRssiStop => Field { shift: 8, width: 1 },
            BitField::CrcStatusCrcOk => Field { shift: 0, width: 1 },
            BitField::RxMatchMatch => Field { shift: 0, width: 3 },
            BitField::RxCrcCrc => Field { shift: 0, width: 24 },
            BitField::DaiIndex => Field { shift: 0, width: 3 },
            BitField::PacketPtrPointer => Field { shift: 0, width: 32 },
            BitField::FrequencyFrequency => Field { shift: 0, width: 7 },
            BitField::FrequencyMap => Field { shift: 8, width: 1 },
            BitField::TxPowerPower => Field { shift: 0, width: 8 },
            BitField::ModeMode => Field { shift: 0, width: 4 },
            BitField::Pcnf0LfLen => Field { shift: 0, width: 4 },
            BitField::Pcnf0S0Len => Field { shift: 8, width: 1 },
            BitField::Pcnf0S1Len => Field { shift: 16, width: 4 },
            BitField::Pcnf0S1Incl => Field { shift: 20, width: 1 },
            BitField::Pcnf0PLen => Field { shift: 24, width: 2 },
            BitField::Pcnf0CrcInc => Field { shift: 26, width: 1 },
            BitField::Pcnf1MaxLen => Field { shift: 0, width: 8 },
            BitField::Pcnf1StatLen => Field { shift: 8, width: 8 },
            BitField::Pcnf1BaLen => Field { shift: 16, width: 3 },
            BitField::Pcnf1Endian => Field { shift: 24, width: 1 },
            BitField::Pcnf1WhiteEn => Field { shift: 25, width: 1 },
            BitField::Base0Base => Field { shift: 0, width: 32 },
            BitField::Base1Base => Field { shift: 0, width: 32 },
            BitField::Prefix0Ap0 => Field { shift: 0, width: 8 },
            BitField::Prefix0Ap1 => Field { shift: 8, width: 8 },
            BitField::Prefix0Ap2 => Field { shift: 16, width: 8 },
            BitField::Prefix0Ap3 => Field { shift: 24, width: 8 },
            BitField::Prefix1Ap4 => Field { shift: 0, width: 8 },
            BitField::Prefix1Ap5 => Field { shift: 8, width: 8 },
            BitField::Prefix1Ap6 => Field { shift: 16, width: 8 },
            BitField::Prefix1Ap7 => Field { shift: 24, width: 8 },
            BitField::TxAddressAddress => Field { shift: 0, width: 3 },
            BitField::RxAddressesAddress => Field { shift: 0, width: 8 },
            BitField::CrcCnfLen => Field { shift: 0, width: 2 },
            BitField::CrcCnfSkipAddr => Field { shift: 8, width: 2 },
            BitField::CrcPolyCrcPoly => Field { shift: 0, width: 24 },
            BitField::CrcInitCrcInit => Field { shift: 0, width: 24 },
            BitField::TifsTifs => Field { shift: 0, width: 8 },
            BitField::RssiSampleRssiSample => Field { shift: 0, width: 7 },
            BitField::StateState => Field { shift: 0, width: 4 },
            BitField::DataWhiteIvDataWhiteIv => Field { shift: 0, width: 7 },
            BitField::BccBcc => Field { shift: 0, width: 32 },
            BitField::DaCnfEna => Field { shift: 0, width: 8 },
            BitField::DaCnfTxAdd => Field { shift: 8, width: 8 },
            BitField::MhrMatchConfConfig => Field { shift: 0, width: 32 },
            BitField::MhrMatchMasPattern => Field { shift: 0, width: 32 },
            BitField::ModeCnf0Ru => Field { shift: 0, width: 1 },
            BitField::ModeCnf0Dtx => Field { shift: 8, width: 2 },
            BitField::CcaCtrlCcaMode => Field { shift: 0, width: 3 },
            BitField::CcaCtrlCcaEdThresh => Field { shift: 8, width: 8 },
            BitField::CcaCtrlCcaCorrThresh => Field { shift: 16, width: 8 },
            BitField::CcaCtrlCcaCorrCnt => Field { shift: 24, width: 8 },
            BitField::PowerPower => Field { shift: 0, width: 1 },
        }
    }
}

/// The word for MODE: IEEE 802.15.4 at 250 kbit/s.
pub open spec fn mode_word_of() -> u32 {
    BitField::ModeMode.layout().place(RADIO_MODE_IEEE802154_250KBIT)
}

/// The word for PCNF0: an eight-bit length field, a preamble of 32 zero bits,
/// and a length that counts the CRC.
pub open spec fn pcnf0_word_of() -> u32 {
    BitField::Pcnf0LfLen.layout().place(LFLEN_IEEE802154) | BitField::Pcnf0PLen.layout().place(
        PLEN_THIRTYTWOZEROS,
    ) | BitField::Pcnf0CrcInc.layout().place(CRCINC_INCLUDE)
}

/// The word for PCNF1: payloads of up to 255 bytes.
pub open spec fn pcnf1_word_of() -> u32 {
    BitField::Pcnf1MaxLen.layout().place(RADIO_PAYLOAD_LENGTH as u32)
}

/// The word for CRCCNF: a two-byte CRC that skips the length field.
pub open spec fn crccnf_word_of() -> u32 {
    BitField::CrcCnfLen.layout().place(CRC_LEN_TWO) | BitField::CrcCnfSkipAddr.layout().place(
        CRC_SKIPADDR_IEEE802154,
    )
}

/// The word for MODECNF0: fast ramp-up, centre frequency while idle.
pub open spec fn modecnf0_word_of() -> u32 {
    BitField::ModeCnf0Ru.layout().place(RU_FAST) | BitField::ModeCnf0Dtx.layout().place(DTX_CENTER)
}

/// The word for CCACTRL: the assessment mode and its three thresholds.
pub open spec fn ccactrl_word_of() -> u32 {
    BitField::CcaCtrlCcaMode.layout().place(IEEE802154_CCA_MODE)
        | BitField::CcaCtrlCcaEdThresh.layout().place(IEEE802154_CCA_ED_THRESH)
        | BitField::CcaCtrlCcaCorrThresh.layout().place(IEEE802154_CCA_CORR_THRESH)
        | BitField::CcaCtrlCcaCorrCnt.layout().place(IEEE802154_CCA_CORR_CNT)
}

/// The word for FREQUENCY that selects `channel`.
pub open spec fn frequency_word_of(channel: RadioChannel) -> u32 {
    BitField::FrequencyFrequency.layout().place(channel.frequency_offset() as u32)
}

/// The word for MODE.
pub fn mode_word() -> (word: u32)
    ensures
        word == mode_word_of(),
        word == RADIO_MODE_IEEE802154_250KBIT,
{
    let word: u32 = BitField::ModeMode.field().val(RADIO_MODE_IEEE802154_250KBIT);
    proof {
        lemma_configuration_words();
    }
    word
}

/// The word for PCNF0.
pub fn pcnf0_word() -> (word: u32)
    ensures
        word == pcnf0_word_of(),
        word == PCNF0_WORD,
{
    let word: u32 = BitField::Pcnf0LfLen.field().val(LFLEN_IEEE802154)
        | BitField::Pcnf0PLen.field().val(PLEN_THIRTYTWOZEROS)
        | BitField::Pcnf0CrcInc.field().val(CRCINC_INCLUDE);
    proof {
        lemma_configuration_words();
    }
    word
}

/// The word for PCNF1.
pub fn pcnf1_word() -> (word: u32)
    ensures
        word == pcnf1_word_of(),
        word == PCNF1_WORD,
{
    let word: u32 = BitField::Pcnf1MaxLen.field().val(RADIO_PAYLOAD_LENGTH as u32);
    proof {
        lemma_configuration_words();
    }
    word
}

/// The word for CRCCNF.
pub fn crccnf_word() -> (word: u32)
    ensures
        word == crccnf_word_of(),
        word == CRCCNF_WORD,
{
    let word: u32 = BitField::CrcCnfLen.field().val(CRC_LEN_TWO)
        | BitField::CrcCnfSkipAddr.field().val(CRC_SKIPADDR_IEEE802154);
    proof {
        lemma_configuration_words();
    }
    word
}

/// The word for MODECNF0.
pub fn modecnf0_word() -> (word: u32)
    ensures
        word == modecnf0_word_of(),
        word == MODECNF0_WORD,
{
    let word: u32 = BitField::ModeCnf0Ru.field().val(RU_FAST) | BitField::ModeCnf0Dtx.field().val(
        DTX_CENTER,
    );
    proof {
        lemma_configuration_words();
    }
    word
}

/// The word for CCACTRL.
pub fn ccactrl_word() -> (word: u32)
    ensures
        word == ccactrl_word_of(),
        word == CCACTRL_WORD,
{
    let word: u32 = BitField::CcaCtrlCcaMode.field().val(IEEE802154_CCA_MODE)
        | BitField::CcaCtrlCcaEdThresh.field().val(IEEE802154_CCA_ED_THRESH)
        | BitField::CcaCtrlCcaCorrThresh.field().val(IEEE802154_CCA_CORR_THRESH)
        | BitField::CcaCtrlCcaCorrCnt.field().val(IEEE802154_CCA_CORR_CNT);
    proof {
        lemma_configuration_words();
    }
    word
}

/// The word for TXADDRESS: transmit on logical address 0.
pub open spec fn txaddress_word_of() -> u32 {
    BitField::TxAddressAddress.layout().place(TX_LOGICAL_ADDRESS)
}

/// The word for RXADDRESSES: receive on logical address 0.
pub open spec fn rxaddresses_word_of() -> u32 {
    BitField::RxAddressesAddress.layout().place(RX_LOGICAL_ADDRESSES)
}

/// The word for TXADDRESS.
pub fn txaddress_word() -> (word: u32)
    ensures
        word == txaddress_word_of(),
        word == 0,
{
    let word: u32 = BitField::TxAddressAddress.field().val(TX_LOGICAL_ADDRESS);
    proof {
        lemma_configuration_words();
    }
    word
}

/// The word for RXADDRESSES.
pub fn rxaddresses_word() -> (word: u32)
    ensures
        word == rxaddresses_word_of(),
        word == 1,
{
    let word: u32 = BitField::RxAddressesAddress.field().val(RX_LOGICAL_ADDRESSES);
    proof {
        lemma_configuration_words();
    }
    word
}

/// The word that selects `channel`: its distance from 2400 MHz, which always
/// fits in the seven bits of the field.
pub fn frequency_word(channel: RadioChannel) -> (word: u32)
    ensures
        word == frequency_word_of(channel),
        word == channel.frequency_offset(),
        word == 5 * (channel.index() - 11) + 5,
{
    let mhz: u32 = channel.frequency();
    let word: u32 = BitField::FrequencyFrequency.field().val(mhz);
    assert((mhz & (((1u32 << 7u32) - 1) as u32)) << 0u32 == mhz) by (bit_vector)
        requires
            mhz <= 80,
    ;
    word
}

/// The word for TXPOWER: the level's byte, zero-extended.
pub fn txpower_word(power: TxPower) -> (word: u32)
    ensures
        word == power.code(),
{
    power.register_value()
}

/// Whether a MODE word selects IEEE 802.15.4 at 250 kbit/s.
pub fn mode_is_ieee802154(mode: u32) -> (enabled: bool)
    ensures
        enabled == (BitField::ModeMode.layout().extract(mode) == RADIO_MODE_IEEE802154_250KBIT),
{
    BitField::ModeMode.field().matches_all(mode, RADIO_MODE_IEEE802154_250KBIT)
}

/// The mask of the interrupt sources that the driver listens to.
pub open spec fn driver_interrupts_of() -> u32 {
    (1u32 << (Event::Ready.interrupt_bit_of() as u32))
        | (1u32 << (Event::CcaIdle.interrupt_bit_of() as u32))
        | (1u32 << (Event::CcaBusy.interrupt_bit_of() as u32))
        | (1u32 << (Event::End.interrupt_bit_of() as u32))
        | (1u32 << (Event::FrameStart.interrupt_bit_of() as u32))
}

/// Whether `event` raises an interrupt under the driver's mask.
pub open spec fn listens_to(event: Event) -> bool {
    event == Event::Ready || event == Event::CcaIdle || event == Event::CcaBusy || event
        == Event::End || event == Event::FrameStart
}

/// The mask of the interrupt sources that the driver listens to, built from
/// the interrupt bits of its five events.
pub fn driver_interrupts() -> (mask: u32)
    ensures
        mask == driver_interrupts_of(),
        mask == DRIVER_INTERRUPTS,
{
    let mask: u32 = (1u32 << Event::Ready.interrupt_bit())
        | (1u32 << Event::CcaIdle.interrupt_bit())
        | (1u32 << Event::CcaBusy.interrupt_bit())
        | (1u32 << Event::End.interrupt_bit())
        | (1u32 << Event::FrameStart.interrupt_bit());
    assert((1u32 << 0u32) | (1u32 << 17u32) | (1u32 << 18u32) | (1u32 << 3u32) | (1u32 << 14u32)
        == 0x0006_4009u32) by (bit_vector);
    mask
}

/// The driver's mask has the bit of an event set exactly when the driver
/// listens to that event.
pub proof fn lemma_driver_interrupts(event: Event)
    ensures
        driver_interrupts_of() == DRIVER_INTERRUPTS,
        ((DRIVER_INTERRUPTS >> (event.interrupt_bit_of() as u32)) & 1 == 1) <==> listens_to(event),
{
    assert((1u32 << 0u32) | (1u32 << 17u32) | (1u32 << 18u32) | (1u32 << 3u32) | (1u32 << 14u32)
        == 0x0006_4009u32) by (bit_vector);
    let bit: u32 = event.interrupt_bit_of() as u32;
    assert(((0x0006_4009u32 >> bit) & 1 == 1) <==> (bit == 0 || bit == 17 || bit == 18 || bit == 3
        || bit == 14)) by (bit_vector)
        requires
            bit < 32,
    ;
}

/// The configuration words written out, and what each holds in its fields:
/// IEEE 802.15.4 mode; an eight-bit length field, a preamble of 32 zero
/// bits and a length that counts the CRC; payloads of up to 255 bytes; a
/// two-byte CRC that skips the length field; fast ramp-up around the centre
/// frequency; and the four parameters of the channel assessment.
pub proof fn lemma_configuration_words()
    ensures
        mode_word_of() == RADIO_MODE_IEEE802154_250KBIT,
        pcnf0_word_of() == PCNF0_WORD,
        pcnf1_word_of() == PCNF1_WORD,
        crccnf_word_of() == CRCCNF_WORD,
        modecnf0_word_of() == MODECNF0_WORD,
        ccactrl_word_of() == CCACTRL_WORD,
        txaddress_word_of() == 0,
        rxaddresses_word_of() == 1,
        BitField::ModeMode.layout().extract(RADIO_MODE_IEEE802154_250KBIT) == 15,
        BitField::Pcnf0LfLen.layout().extract(PCNF0_WORD) == 8,
        BitField::Pcnf0S0Len.layout().extract(PCNF0_WORD) == 0,
        BitField::Pcnf0S1Len.layout().extract(PCNF0_WORD) == 0,
        BitField::Pcnf0S1Incl.layout().extract(PCNF0_WORD) == 0,
        BitField::Pcnf0PLen.layout().extract(PCNF0_WORD) == PLEN_THIRTYTWOZEROS,
        BitField::Pcnf0CrcInc.layout().extract(PCNF0_WORD) == CRCINC_INCLUDE,
        BitField::Pcnf1MaxLen.layout().extract(PCNF1_WORD) == RADIO_PAYLOAD_LENGTH,
        BitField::CrcCnfLen.layout().extract(CRCCNF_WORD) == CRC_LEN_TWO,
        BitField::CrcCnfSkipAddr.layout().extract(CRCCNF_WORD) == CRC_SKIPADDR_IEEE802154,
        BitField::ModeCnf0Ru.layout().extract(MODECNF0_WORD) == RU_FAST,
        BitField::ModeCnf0Dtx.layout().extract(MODECNF0_WORD) == DTX_CENTER,
        BitField::CcaCtrlCcaMode.layout().extract(CCACTRL_WORD) == IEEE802154_CCA_MODE,
        BitField::CcaCtrlCcaEdThresh.layout().extract(CCACTRL_WORD) == IEEE802154_CCA_ED_THRESH,
        BitField::CcaCtrlCcaCorrThresh.layout().extract(CCACTRL_WORD)
            == IEEE802154_CCA_CORR_THRESH,
        BitField::CcaCtrlCcaCorrCnt.layout().extract(CCACTRL_WORD) == IEEE802154_CCA_CORR_CNT,
{
    let one: u32 = ((1u32 << 1u32) - 1) as u32;
    let two: u32 = ((1u32 << 2u32) - 1) as u32;
    let three: u32 = ((1u32 << 3u32) - 1) as u32;
    let four: u32 = ((1u32 << 4u32) - 1) as u32;
    let eight: u32 = ((1u32 << 8u32) - 1) as u32;
    assert(one == 1 && two == 3 && three == 7 && four == 15 && eight == 255) by (bit_vector)
        requires
            one == ((1u32 << 1u32) - 1) as u32,
            two == ((1u32 << 2u32) - 1) as u32,
            three == ((1u32 << 3u32) - 1) as u32,
            four == ((1u32 << 4u32) - 1) as u32,
            eight == ((1u32 << 8u32) - 1) as u32,
    ;
    assert({
        &&& (15u32 & 15) << 0u32 == 15
        &&& ((8u32 & 15) << 0u32) | ((2u32 & 3) << 24u32) | ((1u32 & 1) << 26u32) == 0x0600_0008
        &&& (255u32 & 255) << 0u32 == 255
        &&& ((2u32 & 3) << 0u32) | ((2u32 & 3) << 8u32) == 0x0202
        &&& ((1u32 & 1) << 0u32) | ((2u32 & 3) << 8u32) == 0x0201
        &&& ((0u32 & 7) << 0u32) | ((0x14u32 & 255) << 8u32) | ((0x14u32 & 255) << 16u32) | ((
        0x02u32 & 255) << 24u32) == 0x0214_1400
        &&& (0u32 & 7) << 0u32 == 0
        &&& (1u32 & 255) << 0u32 == 1
    }) by (bit_vector);
    assert({
        &&& (15u32 >> 0u32) & 15 == 15
        &&& (0x0600_0008u32 >> 0u32) & 15 == 8
        &&& (0x0600_0008u32 >> 8u32) & 1 == 0
        &&& (0x0600_0008u32 >> 16u32) & 15 == 0
        &&& (0x0600_0008u32 >> 20u32) & 1 == 0
        &&& (0x0600_0008u32 >> 24u32) & 3 == 2
        &&& (0x0600_0008u32 >> 26u32) & 1 == 1
        &&& (0x0000_00ffu32 >> 0u32) & 255 == 255
        &&& (0x0202u32 >> 0u32) & 3 == 2
        &&& (0x0202u32 >> 8u32) & 3 == 2
        &&& (0x0201u32 >> 0u32) & 1 == 1
        &&& (0x0201u32 >> 8u32) & 3 == 2
        &&& (0x0214_1400u32 >> 0u32) & 7 == 0
        &&& (0x0214_1400u32 >> 8u32) & 255 == 0x14
        &&& (0x0214_1400u32 >> 16u32) & 255 == 0x14
        &&& (0x0214_1400u32 >> 24u32) & 255 == 0x02
    }) by (bit_vector);
}

/// Every field lies inside its register, and two different fields of one
/// register share no bit.
pub proof fn lemma_fields_do_not_overlap(a: BitField, b: BitField)
    ensures
        a.layout().wf(),
        a.register_of().wf(),
        a != b && a.register_of() == b.register_of() ==> a.layout().disjoint(b.layout()),
{
}

} // verus!
