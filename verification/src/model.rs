//! The engine as a mathematical state machine.
//!
//! `RadioState` is what the engine remembers, with its buffers seen as
//! sequences of bytes. Each operation of the engine is described here as a
//! function from the state before to the state after and to the sequence of
//! operations that the platform has to perform. The executable engine is
//! proved to follow these functions step by step.
use vstd::prelude::*;
use crate::channel::RadioChannel;
use crate::config::{
    ccactrl_word_of, crccnf_word_of, driver_interrupts_of, frequency_word_of, mode_word_of,
    modecnf0_word_of, pcnf0_word_of, pcnf1_word_of, rxaddresses_word_of, txaddress_word_of,
};
use crate::constants::{
    IEEE802154_MAX_BE, IEEE802154_MAX_POLLING_ATTEMPTS, IEEE802154_MIN_BE, MFR_SIZE,
    MIMIC_PSDU_OFFSET, NONCE_SEED, PSDU_OFFSET, RADIO_CRCINIT_IEEE802154, RADIO_CRCPOLY_IEEE802154,
    RADIO_STATE_RX, RADIO_STATE_RXDISABLE, RADIO_STATE_RXIDLE, RADIO_STATE_RXRU, RADIO_STATE_TX,
    RADIO_STATE_TXDISABLE, RADIO_STATE_TXIDLE, RADIO_STATE_TXRU,
};
use crate::error::ErrorCode;
use crate::nonce::{backoff_delay, xorshift};
use crate::ops::{as_actions, latched, ActionView, BufferSlot, InterruptStatus, RadioOp};
use crate::power::TxPower;
use crate::registers::{Event, Register, Task, ALL_INTERRUPTS};

verus! {

/// Whether a STATE word names one of the four transmitter states.
pub open spec fn tx_family(state: u32) -> bool {
    state == RADIO_STATE_TXRU || state == RADIO_STATE_TXIDLE || state == RADIO_STATE_TXDISABLE
        || state == RADIO_STATE_TX
}

/// Whether a STATE word names one of the four receiver states.
pub open spec fn rx_family(state: u32) -> bool {
    state == RADIO_STATE_RXRU || state == RADIO_STATE_RXIDLE || state == RADIO_STATE_RXDISABLE
        || state == RADIO_STATE_RX
}

/// The PHY length byte of a frame of `frame_len` bytes: the frame and its
/// CRC, as far as a byte can hold the sum.
pub open spec fn phy_length_byte(frame_len: usize) -> u8 {
    ((frame_len + MFR_SIZE) % 256) as u8
}

/// The length of the frame in a received buffer: what the PHY length byte
/// counts, without the CRC.
pub open spec fn received_frame_len(buf: Seq<u8>) -> usize {
    (buf[MIMIC_PSDU_OFFSET as int] - MFR_SIZE) as usize
}

/// Whether a buffer that the radio has filled names a frame: it holds a PHY
/// length byte, and the byte counts at least the CRC.
pub open spec fn holds_frame(buf: Seq<u8>) -> bool {
    buf.len() > MIMIC_PSDU_OFFSET && buf[MIMIC_PSDU_OFFSET as int] >= MFR_SIZE
}

/// The bytes of a buffer slot, if the slot is occupied.
pub open spec fn bytes_of(slot: Option<Vec<u8>>) -> Option<Seq<u8>> {
    match slot {
        Some(buf) => Some(buf@),
        None => None,
    }
}

/// The operations that power the radio up from any state.
pub open spec fn radio_on_ops() -> Seq<RadioOp> {
    seq![RadioOp::Write(Register::Power, 0), RadioOp::Write(Register::Power, 1)]
}

/// The operations that power the radio down.
pub open spec fn radio_off_ops() -> Seq<RadioOp> {
    seq![RadioOp::Write(Register::Power, 0)]
}

/// The operations that disable the radio and wait until it is disabled.
pub open spec fn disable_ops() -> Seq<RadioOp> {
    seq![
        RadioOp::ClearEvent(Event::Disabled),
        RadioOp::Trigger(Task::Disable),
        RadioOp::AwaitEvent(Event::Disabled),
    ]
}

/// The operation that unmasks the driver's interrupt sources.
pub open spec fn enable_interrupts_op() -> RadioOp {
    RadioOp::Write(Register::IntenSet, driver_interrupts_of())
}

/// The operation that masks every interrupt source.
pub open spec fn disable_all_interrupts_op() -> RadioOp {
    RadioOp::Write(Register::IntenClr, ALL_INTERRUPTS)
}

/// FRAMESTART needs no decision: it is only acknowledged.
pub open spec fn framestart_ops(status: InterruptStatus) -> Seq<RadioOp> {
    if latched(status.framestart) {
        seq![RadioOp::ClearEvent(Event::FrameStart)]
    } else {
        seq![]
    }
}

/// On CCAIDLE the channel is clear: the transmitter is enabled.
pub open spec fn ccaidle_ops(status: InterruptStatus) -> Seq<RadioOp> {
    if latched(status.ccaidle) {
        seq![RadioOp::ClearEvent(Event::CcaIdle), RadioOp::Trigger(Task::TxEn)]
    } else {
        seq![]
    }
}

/// On CCABUSY the radio is disabled before anything is decided.
pub open spec fn ccabusy_prologue() -> Seq<RadioOp> {
    seq![
        RadioOp::ClearEvent(Event::CcaBusy),
        RadioOp::ClearEvent(Event::Ready),
        RadioOp::Trigger(Task::Disable),
        RadioOp::AwaitEvent(Event::Disabled),
        RadioOp::ClearEvent(Event::Disabled),
    ]
}

/// A call that can change what the engine remembers, with its arguments.
/// The other operations of the engine only read.
pub enum Call {
    Transmit { buf: Seq<u8>, frame_len: usize },
    SetReceiveClient { buf: Seq<u8> },
    SetReceiveBuffer { buf: Seq<u8> },
    SetTransmitClient,
    SetTimerRef,
    SetAddress { addr: u16 },
    SetAddressLong { bytes: Seq<u8> },
    SetPan { id: u16 },
    SetChannel { chan: u8 },
    SetTxPower { dbm: i8 },
    RandomNonce,
    HandleInterrupt { status: InterruptStatus },
}

impl Call {
    /// An extended address has eight bytes.
    pub open spec fn wf(self) -> bool {
        self matches Call::SetAddressLong { bytes } ==> bytes.len() == 8
    }
}

/// What the engine remembers.
pub ghost struct RadioState {
    /// The staged output power.
    pub tx_power: TxPower,
    /// Whether a receive client is registered.
    pub rx_client: bool,
    /// Whether a transmit client is registered.
    pub tx_client: bool,
    /// Whether an alarm is attached.
    pub timer: bool,
    /// The frame that is being transmitted, from `transmit` until the
    /// transmit client has it back.
    pub tx_buf: Option<Seq<u8>>,
    /// The buffer for the next received frame.
    pub rx_buf: Option<Seq<u8>>,
    /// The 16-bit short address.
    pub addr: u16,
    /// The 64-bit extended address.
    pub addr_long: Seq<u8>,
    /// The 16-bit PAN ID.
    pub pan: u16,
    /// Busy channel assessments that the current transmission has backed off
    /// from.
    pub cca_count: u8,
    /// The backoff exponent: a delay is drawn from `0..2^cca_be` periods.
    pub cca_be: u8,
    /// The state of the generator of delays.
    pub random_nonce: u32,
    /// The staged channel.
    pub channel: RadioChannel,
    /// A transmission is in flight: the radio works on the frame, not on the
    /// receive buffer.
    pub transmitting: bool,
}

impl RadioState {
    /// The engine as it is created: no buffers, no clients, channel 26 at
    /// 0 dBm.
    pub open spec fn initial() -> RadioState {
        RadioState {
            tx_power: TxPower::ZerodBm,
            rx_client: false,
            tx_client: false,
            timer: false,
            tx_buf: None,
            rx_buf: None,
            addr: 0,
            addr_long: seq![0u8, 0u8, 0u8, 0u8, 0u8, 0u8, 0u8, 0u8],
            pan: 0,
            cca_count: 0,
            cca_be: IEEE802154_MIN_BE,
            random_nonce: NONCE_SEED,
            channel: RadioChannel::DataChannel26,
            transmitting: false,
        }
    }

    /// What holds of the engine between any two operations: a transmission
    /// in flight has its frame, the attempt counter and the backoff exponent
    /// are within their limits, and the extended address has eight bytes.
    pub open spec fn wf(self) -> bool {
        &&& self.transmitting ==> self.tx_buf is Some
        &&& self.cca_count <= IEEE802154_MAX_POLLING_ATTEMPTS
        &&& IEEE802154_MIN_BE <= self.cca_be <= IEEE802154_MAX_BE
        &&& self.addr_long.len() == 8
    }

    /// A frame is in the engine's hands: `transmit` answers BUSY.
    pub open spec fn in_flight(self) -> bool {
        self.tx_buf is Some || self.transmitting
    }

    /// The buffer that the radio works on when it is next enabled.
    pub open spec fn dma_slot(self) -> BufferSlot {
        if self.transmitting {
            BufferSlot::Tx
        } else {
            BufferSlot::Rx
        }
    }

    /// The engine holds the buffer that the radio is to work on.
    pub open spec fn can_listen(self) -> bool {
        if self.transmitting {
            self.tx_buf is Some
        } else {
            self.rx_buf is Some
        }
    }

    /// Entering RX: every transmission and every reception starts here.
    pub open spec fn rx_ops(self) -> Seq<RadioOp> {
        seq![
            RadioOp::ClearEvent(Event::Ready),
            RadioOp::PointDma { slot: self.dma_slot(), offset: MIMIC_PSDU_OFFSET },
            RadioOp::Trigger(Task::RxEn),
            enable_interrupts_op(),
        ]
    }

    /// The configuration of the radio for IEEE 802.15.4, with the engine's
    /// output power and channel.
    pub open spec fn configure_ops(self) -> Seq<RadioOp> {
        seq![
            RadioOp::Write(Register::Mode, mode_word_of()),
            RadioOp::Write(Register::Pcnf0, pcnf0_word_of()),
            RadioOp::Write(Register::Pcnf1, pcnf1_word_of()),
            RadioOp::Write(Register::CrcCnf, crccnf_word_of()),
            RadioOp::Write(Register::CrcInit, RADIO_CRCINIT_IEEE802154),
            RadioOp::Write(Register::CrcPoly, RADIO_CRCPOLY_IEEE802154),
            RadioOp::Write(Register::ModeCnf0, modecnf0_word_of()),
            RadioOp::Write(Register::CcaCtrl, ccactrl_word_of()),
            RadioOp::Write(Register::TxPower, self.tx_power.code() as u32),
            RadioOp::Write(Register::Frequency, frequency_word_of(self.channel)),
            RadioOp::Write(Register::TxAddress, txaddress_word_of()),
            RadioOp::Write(Register::RxAddresses, rxaddresses_word_of()),
        ]
    }

    /// Power up, disable, configure, enter RX.
    pub open spec fn initialize_ops(self) -> Seq<RadioOp> {
        radio_on_ops() + disable_ops() + self.configure_ops() + self.rx_ops()
    }

    /// Power down, then initialise: how pending configuration reaches the
    /// hardware.
    pub open spec fn commit_ops(self) -> Seq<RadioOp> {
        radio_off_ops() + self.initialize_ops()
    }

    /// The power cycle that follows every frame, and the unmasking of the
    /// interrupts that ends the handler.
    pub open spec fn power_cycle_ops(self) -> Seq<RadioOp> {
        self.commit_ops() + self.rx_ops() + seq![enable_interrupts_op()]
    }

    /// Why `transmit` refuses a frame of `frame_len` bytes in a buffer of
    /// `buf_len` bytes, if it does.
    pub open spec fn transmit_error(self, buf_len: nat, frame_len: nat) -> Option<ErrorCode> {
        if self.in_flight() {
            Some(ErrorCode::BUSY)
        } else if PSDU_OFFSET + frame_len >= buf_len {
            Some(ErrorCode::SIZE)
        } else {
            None
        }
    }

    /// The frame buffer as the engine keeps it: with its PHY length byte.
    pub open spec fn stamped(buf: Seq<u8>, frame_len: usize) -> Seq<u8> {
        buf.update(MIMIC_PSDU_OFFSET as int, phy_length_byte(frame_len))
    }

    /// The engine after it has accepted a frame.
    pub open spec fn after_transmit(self, buf: Seq<u8>, frame_len: usize) -> RadioState {
        RadioState {
            tx_buf: Some(RadioState::stamped(buf, frame_len)),
            transmitting: true,
            cca_count: 0,
            cca_be: IEEE802154_MIN_BE,
            ..self
        }
    }

    /// On READY the radio has ramped up. While a frame waits and the radio
    /// idles in RX, the channel is assessed; otherwise the radio is started
    /// on the buffer it points at.
    pub open spec fn ready_ops(self, status: InterruptStatus) -> Seq<RadioOp> {
        if latched(status.ready) {
            seq![
                RadioOp::ClearEvent(Event::Ready),
                RadioOp::ClearEvent(Event::End),
                RadioOp::Trigger(
                    if self.transmitting && status.state == RADIO_STATE_RXIDLE {
                        Task::CcaStart
                    } else {
                        Task::Start
                    },
                ),
            ]
        } else {
            seq![]
        }
    }

    /// A busy channel is answered with a backoff while attempts are left.
    pub open spec fn backs_off(self) -> bool {
        self.cca_count < IEEE802154_MAX_POLLING_ATTEMPTS
    }

    /// The backoff exponent after one more busy assessment: one more, but
    /// never more than the largest exponent.
    pub open spec fn next_be(self) -> u8 {
        if self.cca_be < IEEE802154_MAX_BE {
            (self.cca_be + 1) as u8
        } else {
            IEEE802154_MAX_BE
        }
    }

    /// The engine after it has counted a busy assessment and drawn a delay.
    pub open spec fn after_backoff(self) -> RadioState {
        RadioState {
            cca_count: (self.cca_count + 1) as u8,
            cca_be: self.next_be(),
            random_nonce: xorshift(self.random_nonce),
            ..self
        }
    }

    /// The engine after it has given a transmission up or seen it through:
    /// the frame goes back to the client, if there is one.
    pub open spec fn after_send_done(self) -> RadioState {
        RadioState {
            transmitting: false,
            tx_buf: if self.tx_client {
                None
            } else {
                self.tx_buf
            },
            ..self
        }
    }

    /// The notification that hands the frame back, if there is a client to
    /// take it and a frame to hand back.
    pub open spec fn send_done_actions(self, result: Result<(), ErrorCode>) -> Seq<ActionView> {
        if self.tx_client && self.tx_buf is Some {
            seq![ActionView::SendDone { buf: self.tx_buf->0, acked: false, result }]
        } else {
            seq![]
        }
    }

    /// The engine after the CCABUSY part of the handler.
    pub open spec fn after_busy(self, status: InterruptStatus) -> RadioState {
        if !latched(status.ccabusy) {
            self
        } else if self.backs_off() {
            self.after_backoff()
        } else {
            self.after_send_done()
        }
    }

    /// The CCABUSY part of the handler: disable the radio, then either arm
    /// the alarm for a random delay or report the channel as busy.
    pub open spec fn busy_actions(self, status: InterruptStatus) -> Seq<ActionView> {
        if !latched(status.ccabusy) {
            seq![]
        } else {
            as_actions(ccabusy_prologue()) + (if self.backs_off() {
                seq![
                    ActionView::SetAlarm {
                        reference: 0,
                        dt: backoff_delay(
                            self.after_backoff().random_nonce,
                            self.after_backoff().cca_be,
                        ) as u32,
                    },
                ]
            } else {
                self.send_done_actions(Err(ErrorCode::BUSY))
            }) + seq![ActionView::Radio(enable_interrupts_op())]
        }
    }

    /// The engine after the END part of the handler.
    pub open spec fn after_end(self, status: InterruptStatus) -> RadioState {
        if !status.end_pending() {
            self
        } else if tx_family(status.state) {
            self.after_send_done()
        } else if rx_family(status.state) {
            RadioState {
                rx_buf: if self.rx_client {
                    None
                } else {
                    self.rx_buf
                },
                ..self
            }
        } else {
            self
        }
    }

    /// The notification that hands a received frame up, if there is a client
    /// to take it and a buffer to hand up.
    pub open spec fn receive_actions(self, status: InterruptStatus) -> Seq<ActionView> {
        if self.rx_client && self.rx_buf is Some {
            seq![
                ActionView::Receive {
                    buf: self.rx_buf->0,
                    frame_len: received_frame_len(self.rx_buf->0),
                    crc_ok: status.crc_ok(),
                    result: if status.crc_ok() {
                        Ok(())
                    } else {
                        Err(ErrorCode::FAIL)
                    },
                },
            ]
        } else {
            seq![]
        }
    }

    /// The END part of the handler: a frame was sent or received. What the
    /// CRC status says counts for received frames only.
    pub open spec fn end_actions(self, status: InterruptStatus) -> Seq<ActionView> {
        if !status.end_pending() {
            seq![]
        } else {
            seq![ActionView::Radio(RadioOp::ClearEvent(Event::End))] + (if tx_family(
                status.state,
            ) {
                self.send_done_actions(Ok(()))
            } else if rx_family(status.state) {
                self.receive_actions(status)
            } else {
                seq![]
            })
        }
    }

    /// What the END part needs of the engine: a buffer to hand to each client
    /// that is owed one, and a received buffer that names a frame.
    pub open spec fn end_admissible(self, status: InterruptStatus) -> bool {
        if !status.end_pending() {
            true
        } else if tx_family(status.state) {
            self.tx_client ==> self.tx_buf is Some
        } else if rx_family(status.state) {
            self.rx_client ==> self.rx_buf is Some && holds_frame(self.rx_buf->0)
        } else {
            true
        }
    }

    /// The inputs on which the handler has something to work with: an alarm
    /// where a backoff is due, and a buffer where a client is owed one.
    pub open spec fn interrupt_admissible(self, status: InterruptStatus) -> bool {
        &&& latched(status.ccabusy) && self.backs_off() ==> self.timer
        &&& latched(status.ccabusy) && !self.backs_off() && self.tx_client ==> self.tx_buf is Some
        &&& self.after_busy(status).end_admissible(status)
    }

    /// The engine after one pass of the interrupt handler.
    pub open spec fn after_interrupt(self, status: InterruptStatus) -> RadioState {
        self.after_busy(status).after_end(status)
    }

    /// One pass of the interrupt handler: mask the interrupts, then look at
    /// READY, FRAMESTART, CCAIDLE, CCABUSY and END in this order. Unless a
    /// frame was completed, the pass ends by unmasking the interrupts; after
    /// a frame, the power cycle does.
    pub open spec fn interrupt_actions(self, status: InterruptStatus) -> Seq<ActionView> {
        seq![ActionView::Radio(disable_all_interrupts_op())] + as_actions(self.ready_ops(status))
            + as_actions(framestart_ops(status)) + as_actions(ccaidle_ops(status))
            + self.busy_actions(status) + self.after_busy(status).end_actions(status) + (
        if status.end_pending() {
            seq![]
        } else {
            seq![ActionView::Radio(enable_interrupts_op())]
        })
    }

    /// The engine after a call.
    pub open spec fn apply(self, call: Call) -> RadioState {
        match call {
            Call::Transmit { buf, frame_len } => if self.transmit_error(buf.len(), frame_len as nat)
                is None {
                self.after_transmit(buf, frame_len)
            } else {
                self
            },
            Call::SetReceiveClient { buf } => RadioState {
                rx_client: true,
                rx_buf: Some(buf),
                ..self
            },
            Call::SetReceiveBuffer { buf } => RadioState { rx_buf: Some(buf), ..self },
            Call::SetTransmitClient => RadioState { tx_client: true, ..self },
            Call::SetTimerRef => RadioState { timer: true, ..self },
            Call::SetAddress { addr } => RadioState { addr, ..self },
            Call::SetAddressLong { bytes } => RadioState { addr_long: bytes, ..self },
            Call::SetPan { id } => RadioState { pan: id, ..self },
            Call::SetChannel { chan } => match RadioChannel::from_index(chan as nat) {
                Some(channel) => RadioState { channel, ..self },
                None => self,
            },
            Call::SetTxPower { dbm } => match TxPower::from_dbm_spec(dbm as int) {
                Some(tx_power) => RadioState { tx_power, ..self },
                None => self,
            },
            Call::RandomNonce => RadioState { random_nonce: xorshift(self.random_nonce), ..self },
            Call::HandleInterrupt { status } => self.after_interrupt(status),
        }
    }
}

} // verus!
