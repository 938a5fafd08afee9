//! Sizes, timings and register values that the driver is built around.
use vstd::prelude::*;

verus! {

/// Largest PHY payload, in bytes, that the radio moves by DMA.
pub const IEEE802154_PAYLOAD_LENGTH: usize = 255;

/// One backoff period, in microseconds: 20 symbols.
pub const IEEE802154_BACKOFF_PERIOD: usize = 320;

/// Time to wait for an acknowledgement, in microseconds: 32 symbols.
pub const IEEE802154_ACK_TIME: usize = 512;

/// Number of busy channel assessments that are answered with a backoff.
pub const IEEE802154_MAX_POLLING_ATTEMPTS: u8 = 4;

/// Backoff exponent at the start of every transmission.
pub const IEEE802154_MIN_BE: u8 = 3;

/// Largest backoff exponent.
pub const IEEE802154_MAX_BE: u8 = 5;

/// Width of the on-air length field, in bits.
pub const RAM_LEN_BITS: usize = 8;

/// Width of the S1 field, in bits.
pub const RAM_S1_BITS: usize = 0;

/// Bytes that precede the payload in RAM.
pub const PREBUF_LEN_BYTES: usize = 2;

/// Index in a frame buffer at which the MAC layer places the first byte of
/// the frame. The two bytes in front of it are a header byte, which only an
/// SPI-attached radio needs, and the PHY length byte.
pub const PSDU_OFFSET: usize = 2;

/// Index in a frame buffer of the PHY length byte. The radio is told that the
/// buffer starts here, so that buffers keep the layout of `PSDU_OFFSET` and
/// the unused header byte is never lost.
pub const MIMIC_PSDU_OFFSET: usize = 1;

/// Size of the MAC footer, the CRC that the radio appends and checks.
pub const MFR_SIZE: usize = 2;

/// Largest payload the packet engine is configured for (PCNF1.MAXLEN).
pub const RADIO_PAYLOAD_LENGTH: usize = 255;

/// Initial state of the generator that draws backoff delays.
pub const NONCE_SEED: u32 = 0xDEAD_BEEF;

/// STATE register: the radio is disabled.
pub const RADIO_STATE_DISABLE: u32 = 0;

/// STATE register: the receiver is ramping up.
pub const RADIO_STATE_RXRU: u32 = 1;

/// STATE register: the receiver is ready to be started.
pub const RADIO_STATE_RXIDLE: u32 = 2;

/// STATE register: reception is in progress.
pub const RADIO_STATE_RX: u32 = 3;

/// STATE register: the receiver is being disabled.
pub const RADIO_STATE_RXDISABLE: u32 = 4;

/// STATE register: the transmitter is ramping up.
pub const RADIO_STATE_TXRU: u32 = 9;

/// STATE register: the transmitter is ready to be started.
pub const RADIO_STATE_TXIDLE: u32 = 10;

/// STATE register: transmission is in progress.
pub const RADIO_STATE_TX: u32 = 11;

/// STATE register: the transmitter is being disabled.
pub const RADIO_STATE_TXDISABLE: u32 = 12;

/// MODE register: IEEE 802.15.4 at 250 kbit/s.
pub const RADIO_MODE_IEEE802154_250KBIT: u32 = 15;

/// CRC initial value for IEEE 802.15.4.
pub const RADIO_CRCINIT_IEEE802154: u32 = 0x0;

/// CRC polynomial for IEEE 802.15.4: x^16 + x^12 + x^5 + 1.
pub const RADIO_CRCPOLY_IEEE802154: u32 = 0x11021;

/// Clear channel assessment by energy detection.
pub const IEEE802154_CCA_MODE: u32 = 0;

/// Energy level above which the channel counts as busy.
pub const IEEE802154_CCA_ED_THRESH: u32 = 0x14;

/// Correlator threshold of the carrier-sense modes.
pub const IEEE802154_CCA_CORR_THRESH: u32 = 0x14;

/// Number of correlator matches of the carrier-sense modes.
pub const IEEE802154_CCA_CORR_CNT: u32 = 0x02;

} // verus!
