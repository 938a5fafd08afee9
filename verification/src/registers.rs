//! The register map of the RADIO peripheral.
//!
//! The peripheral occupies 4 KiB of address space. Every register is one
//! 32-bit word; its place is given as a byte offset from the peripheral's
//! base address. Tasks are started by a write, events are latches that the
//! hardware sets and software clears, and the remaining registers hold
//! configuration and status.
use vstd::prelude::*;

verus! {

/// Physical address at which the peripheral is mapped.
pub const RADIO_BASE: usize = 0x4000_1000;

/// Size of the peripheral's address window, in bytes.
pub const RADIO_WINDOW: usize = 0x1000;

/// Offset of the first event register.
pub const EVENTS_BASE: usize = 0x100;

/// The value that, written to INTENCLR, masks every interrupt source.
pub const ALL_INTERRUPTS: u32 = 0xffff_ffff;

/// Number of device address base and prefix registers.
pub const DEVICE_ADDRESSES: u8 = 8;

/// The tasks of the peripheral.
#[derive(PartialEq, Eq, Structural, Debug, Copy, Clone)]
pub enum Task {
    /// Enable the radio in TX mode.
    TxEn,
    /// Enable the radio in RX mode.
    RxEn,
    /// Start sending or receiving.
    Start,
    /// Stop sending or receiving.
    Stop,
    /// Disable the radio.
    Disable,
    /// Take one sample of the received signal strength.
    RssiStart,
    /// Stop the signal strength measurement.
    RssiStop,
    /// Start the bit counter.
    BcStart,
    /// Stop the bit counter.
    BcStop,
    /// Start a clear channel assessment.
    CcaStart,
    /// Stop the clear channel assessment.
    CcaStop,
}

/// The events of the peripheral.
#[derive(PartialEq, Eq, Structural, Debug, Copy, Clone)]
pub enum Event {
    /// The radio has ramped up and is ready to be started.
    Ready,
    /// The address was sent or received.
    Address,
    /// The payload was sent or received.
    Payload,
    /// The packet was sent or received.
    End,
    /// The radio has been disabled.
    Disabled,
    /// A device address matched the last received packet.
    DevMatch,
    /// No device address matched the last received packet.
    DevMiss,
    /// The signal strength sample is complete.
    RssiEnd,
    /// The bit counter reached its compare value.
    BcMatch,
    /// A packet was received with a correct CRC.
    CrcOk,
    /// A packet was received with a CRC error.
    CrcError,
    /// The IEEE 802.15.4 length field was received.
    FrameStart,
    /// The medium is idle: clear to send.
    CcaIdle,
    /// The medium is busy: do not send.
    CcaBusy,
}

/// The configuration and status registers of the peripheral.
#[derive(PartialEq, Eq, Structural, Debug, Copy, Clone)]
pub enum Register {
    /// Shortcuts between events and tasks.
    Shorts,
    /// Enable interrupts.
    IntenSet,
    /// Disable interrupts.
    IntenClr,
    /// CRC status of the last received packet.
    CrcStatus,
    /// Logical address on which the last packet was received.
    RxMatch,
    /// CRC field of the last received packet.
    RxCrc,
    /// Index of the device address that matched.
    Dai,
    /// Address in RAM of the packet to send or to fill.
    PacketPtr,
    /// Channel frequency, in MHz above 2400 MHz.
    Frequency,
    /// Output power.
    TxPower,
    /// Data rate and modulation.
    Mode,
    /// Packet configuration 0.
    Pcnf0,
    /// Packet configuration 1.
    Pcnf1,
    /// Base address 0.
    Base0,
    /// Base address 1.
    Base1,
    /// Prefix bytes of logical addresses 0 to 3.
    Prefix0,
    /// Prefix bytes of logical addresses 4 to 7.
    Prefix1,
    /// Logical address used for transmission.
    TxAddress,
    /// Logical addresses enabled for reception.
    RxAddresses,
    /// CRC configuration.
    CrcCnf,
    /// CRC polynomial.
    CrcPoly,
    /// CRC initial value.
    CrcInit,
    /// Inter-frame spacing in microseconds.
    Tifs,
    /// Received signal strength sample.
    RssiSample,
    /// Current radio state.
    State,
    /// Data whitening initial value.
    DataWhiteIv,
    /// Bit counter compare value.
    Bcc,
    /// Device address base segment, one of eight.
    Dab(u8),
    /// Device address prefix, one of eight.
    Dap(u8),
    /// Device address match configuration.
    DaCnf,
    /// MAC header search pattern configuration.
    MhrMatchConf,
    /// MAC header search pattern mask.
    MhrMatchMas,
    /// Radio mode configuration 0.
    ModeCnf0,
    /// Clear channel assessment control.
    CcaCtrl,
    /// Peripheral power control.
    Power,
}

impl Task {
    /// Byte offset of the task's register.
    pub open spec fn offset_of(self) -> nat {
        match self {
            Task::TxEn => 0x000,
            Task::RxEn => 0x004,
            Task::Start => 0x008,
            Task::Stop => 0x00c,
            Task::Disable => 0x010,
            Task::RssiStart => 0x014,
            Task::RssiStop => 0x018,
            Task::BcStart => 0x01c,
            Task::BcStop => 0x020,
            Task::CcaStart => 0x02c,
            Task::CcaStop => 0x030,
        }
    }

    /// Byte offset of the register from the base of the peripheral.
    pub fn offset(&self) -> (offset: usize)
        ensures
            offset == self.offset_of(),
    {
        match *self {
            Task::TxEn => 0x000,
            Task::RxEn => 0x004,
            Task::Start => 0x008,
            Task::Stop => 0x00c,
            Task::Disable => 0x010,
            Task::RssiStart => 0x014,
            Task::RssiStop => 0x018,
            Task::BcStart => 0x01c,
            Task::BcStop => 0x020,
            Task::CcaStart => 0x02c,
            Task::CcaStop => 0x030,
        }
    }
}

impl Event {
    /// Byte offset of the event's register.
    pub open spec fn offset_of(self) -> nat {
        match self {
            Event::Ready => 0x100,
            Event::Address => 0x104,
            Event::Payload => 0x108,
            Event::End => 0x10c,
            Event::Disabled => 0x110,
            Event::DevMatch => 0x114,
            Event::DevMiss => 0x118,
            Event::RssiEnd => 0x11c,
            Event::BcMatch => 0x128,
            Event::CrcOk => 0x130,
            Event::CrcError => 0x134,
            Event::FrameStart => 0x138,
            Event::CcaIdle => 0x144,
            Event::CcaBusy => 0x148,
        }
    }

    /// Position of the event's bit in INTENSET and INTENCLR.
    pub open spec fn interrupt_bit_of(self) -> nat {
        match self {
            Event::Ready => 0,
            Event::Address => 1,
            Event::Payload => 2,
            Event::End => 3,
            Event::Disabled => 4,
            Event::DevMatch => 5,
            Event::DevMiss => 6,
            Event::RssiEnd => 7,
            Event::BcMatch => 10,
            Event::CrcOk => 12,
            Event::CrcError => 13,
            Event::FrameStart => 14,
            Event::CcaIdle => 17,
            Event::CcaBusy => 18,
        }
    }

    /// Byte offset of the register from the base of the peripheral.
    pub fn offset(&self) -> (offset: usize)
        ensures
            offset == self.offset_of(),
    {
        match *self {
            Event::Ready => 0x100,
            Event::Address => 0x104,
            Event::Payload => 0x108,
            Event::End => 0x10c,
            Event::Disabled => 0x110,
            Event::DevMatch => 0x114,
            Event::DevMiss => 0x118,
            Event::RssiEnd => 0x11c,
            Event::BcMatch => 0x128,
            Event::CrcOk => 0x130,
            Event::CrcError => 0x134,
            Event::FrameStart => 0x138,
            Event::CcaIdle => 0x144,
            Event::CcaBusy => 0x148,
        }
    }

    /// The bit's position follows from the register's place: event registers
    /// and interrupt bits are laid out in the same order.
    pub fn interrupt_bit(&self) -> (bit: u32)
        ensures
            bit == self.interrupt_bit_of(),
            bit < 32,
    {
        let offset: usize = self.offset();
        ((offset - EVENTS_BASE) / 4) as u32
    }
}

impl Register {
    /// Whether the value names a register that exists: the indexed registers
    /// come in groups of eight.
    pub open spec fn wf(self) -> bool {
        match self {
            Register::Dab(n) => n < DEVICE_ADDRESSES,
            Register::Dap(n) => n < DEVICE_ADDRESSES,
            _ => true,
        }
    }

    /// Byte offset of the register.
    pub open spec fn offset_of(self) -> nat {
        match self {
            Register::Shorts => 0x200,
            Register::IntenSet => 0x304,
            Register::IntenClr => 0x308,
            Register::CrcStatus => 0x400,
            Register::RxMatch => 0x408,
            Register::RxCrc => 0x40c,
            Register::Dai => 0x410,
            Register::PacketPtr => 0x504,
            Register::Frequency => 0x508,
            Register::TxPower => 0x50c,
            Register::Mode => 0x510,
            Register::Pcnf0 => 0x514,
            Register::Pcnf1 => 0x518,
            Register::Base0 => 0x51c,
            Register::Base1 => 0x520,
            Register::Prefix0 => 0x524,
            Register::Prefix1 => 0x528,
            Register::TxAddress => 0x52c,
            Register::RxAddresses => 0x530,
            Register::CrcCnf => 0x534,
            Register::CrcPoly => 0x538,
            Register::CrcInit => 0x53c,
            Register::Tifs => 0x544,
            Register::RssiSample => 0x548,
            Register::State => 0x550,
            Register::DataWhiteIv => 0x554,
            Register::Bcc => 0x560,
            Register::Dab(n) => (0x600 + 4 * n) as nat,
            Register::Dap(n) => (0x620 + 4 * n) as nat,
            Register::DaCnf => 0x640,
            Register::MhrMatchConf => 0x644,
            Register::MhrMatchMas => 0x648,
            Register::ModeCnf0 => 0x650,
            Register::CcaCtrl => 0x66c,
            Register::Power => 0xffc,
        }
    }

    /// Whether the value names a register that exists.
    pub fn is_valid(&self) -> (valid: bool)
        ensures
            valid == self.wf(),
    {
        match *self {
            Register::Dab(n) => n < DEVICE_ADDRESSES,
            Register::Dap(n) => n < DEVICE_ADDRESSES,
            _ => true,
        }
    }

    /// Byte offset of the register from the base of the peripheral.
    pub fn offset(&self) -> (offset: usize)
        requires
            self.wf(),
        ensures
            offset == self.offset_of(),
    {
        match *self {
            Register::Shorts => 0x200,
            Register::IntenSet => 0x304,
            Register::IntenClr => 0x308,
            Register::CrcStatus => 0x400,
            Register::RxMatch => 0x408,
            Register::RxCrc => 0x40c,
            Register::Dai => 0x410,
            Register::PacketPtr => 0x504,
            Register::Frequency => 0x508,
            Register::TxPower => 0x50c,
            Register::Mode => 0x510,
            Register::Pcnf0 => 0x514,
            Register::Pcnf1 => 0x518,
            Register::Base0 => 0x51c,
            Register::Base1 => 0x520,
            Register::Prefix0 => 0x524,
            Register::Prefix1 => 0x528,
            Register::TxAddress => 0x52c,
            Register::RxAddresses => 0x530,
            Register::CrcCnf => 0x534,
            Register::CrcPoly => 0x538,
            Register::CrcInit => 0x53c,
            Register::Tifs => 0x544,
            Register::RssiSample => 0x548,
            Register::State => 0x550,
            Register::DataWhiteIv => 0x554,
            Register::Bcc => 0x560,
            Register::Dab(n) => 0x600 + 4 * (n as usize),
            Register::Dap(n) => 0x620 + 4 * (n as usize),
            Register::DaCnf => 0x640,
            Register::MhrMatchConf => 0x644,
            Register::MhrMatchMas => 0x648,
            Register::ModeCnf0 => 0x650,
            Register::CcaCtrl => 0x66c,
            Register::Power => 0xffc,
        }
    }
}

/// Every task register is a word inside the task block, which ends where
/// the event block begins.
pub proof fn lemma_task_offsets(a: Task, b: Task)
    ensures
        a.offset_of() % 4 == 0,
        a.offset_of() < EVENTS_BASE,
        a.offset_of() == b.offset_of() ==> a == b,
{
}

/// Every event register is a word inside the event block, no two events
/// share a register or an interrupt bit, and the interrupt bit of an event is
/// the number of its word within the block.
pub proof fn lemma_event_offsets(a: Event, b: Event)
    ensures
        a.offset_of() % 4 == 0,
        EVENTS_BASE <= a.offset_of() < 0x200,
        a.offset_of() == b.offset_of() ==> a == b,
        a.interrupt_bit_of() == (a.offset_of() - EVENTS_BASE) / 4,
        a.interrupt_bit_of() < 32,
        a.interrupt_bit_of() == b.interrupt_bit_of() ==> a == b,
{
}

/// Every configuration and status register is a word behind the event block
/// and inside the peripheral's window, and no two of them share a place.
pub proof fn lemma_register_offsets(a: Register, b: Register)
    requires
        a.wf(),
        b.wf(),
    ensures
        a.offset_of() % 4 == 0,
        0x200 <= a.offset_of(),
        a.offset_of() + 4 <= RADIO_WINDOW,
        a.offset_of() == b.offset_of() ==> a == b,
{
}

} // verus!
