//! The radio engine.
//!
//! `Radio` keeps what the driver remembers between calls: the staged
//! configuration, the two frame buffers, and the state of the CSMA-CA
//! algorithm. It decides; it does not act. Whatever has to reach the
//! peripheral, the alarm or a client comes back from each call as a list, in
//! the order in which the platform has to carry it out.
use vstd::prelude::*;
use crate::channel::RadioChannel;
use crate::config::{
    ccactrl_word, ccactrl_word_of, crccnf_word, crccnf_word_of, driver_interrupts, frequency_word,
    frequency_word_of, mode_is_ieee802154, mode_word, mode_word_of, modecnf0_word, modecnf0_word_of,
    pcnf0_word, pcnf0_word_of, pcnf1_word, pcnf1_word_of, rxaddresses_word, rxaddresses_word_of,
    txaddress_word, txaddress_word_of, txpower_word, BitField,
};
use crate::constants::{
    IEEE802154_MAX_BE, IEEE802154_MAX_POLLING_ATTEMPTS, IEEE802154_MIN_BE, MFR_SIZE,
    MIMIC_PSDU_OFFSET, NONCE_SEED, PSDU_OFFSET, RADIO_CRCINIT_IEEE802154, RADIO_CRCPOLY_IEEE802154,
    RADIO_MODE_IEEE802154_250KBIT, RADIO_STATE_RX, RADIO_STATE_RXDISABLE, RADIO_STATE_RXIDLE,
    RADIO_STATE_RXRU, RADIO_STATE_TX, RADIO_STATE_TXDISABLE, RADIO_STATE_TXIDLE, RADIO_STATE_TXRU,
};
use crate::error::ErrorCode;
use crate::model::{
    bytes_of, ccabusy_prologue, ccaidle_ops, disable_all_interrupts_op, disable_ops,
    enable_interrupts_op, framestart_ops, radio_off_ops, radio_on_ops, rx_family, tx_family, Call,
    RadioState,
};
use crate::nonce::{backoff_microseconds, next_nonce, xorshift};
use crate::ops::{
    as_actions, is_latched, latched, push_action, push_op, Action, ActionView, BufferSlot,
    InterruptStatus, RadioOp,
};
use crate::power::TxPower;
use crate::registers::{Event, Register, Task, ALL_INTERRUPTS};

verus! {

/// The driver's memory.
///
/// The engine knows of its surroundings only what it is told: that a client
/// or an alarm has been attached, and what the registers read when an
/// interrupt came. Its buffers are its own: a buffer is either in one of the
/// engine's two slots or in the hands of a client, never in both.
pub struct Radio {
    tx_power: TxPower,
    rx_client: bool,
    tx_client: bool,
    tx_buf: Option<Vec<u8>>,
    rx_buf: Option<Vec<u8>>,
    addr: u16,
    addr_long: [u8; 8],
    pan: u16,
    cca_count: u8,
    cca_be: u8,
    random_nonce: u32,
    channel: RadioChannel,
    transmitting: bool,
    timer0: bool,
}

/// What one pass of the interrupt handler asks of the platform.
pub struct InterruptOutcome {
    /// To be carried out in this order.
    pub actions: Vec<Action>,
    /// A frame was sent or received. Once the actions are carried out, the
    /// platform calls `power_cycle` and performs what that returns.
    pub frame_complete: bool,
}

impl View for Radio {
    type V = RadioState;

    closed spec fn view(&self) -> RadioState {
        RadioState {
            tx_power: self.tx_power,
            rx_client: self.rx_client,
            tx_client: self.tx_client,
            timer: self.timer0,
            tx_buf: bytes_of(self.tx_buf),
            rx_buf: bytes_of(self.rx_buf),
            addr: self.addr,
            addr_long: self.addr_long@,
            pan: self.pan,
            cca_count: self.cca_count,
            cca_be: self.cca_be,
            random_nonce: self.random_nonce,
            channel: self.channel,
            transmitting: self.transmitting,
        }
    }
}

/// Whether a STATE word names one of the four transmitter states.
pub fn is_tx_family(state: u32) -> (yes: bool)
    ensures
        yes == tx_family(state),
{
    state == RADIO_STATE_TXRU || state == RADIO_STATE_TXIDLE || state == RADIO_STATE_TXDISABLE
        || state == RADIO_STATE_TX
}

/// Whether a STATE word names one of the four receiver states.
pub fn is_rx_family(state: u32) -> (yes: bool)
    ensures
        yes == rx_family(state),
{
    state == RADIO_STATE_RXRU || state == RADIO_STATE_RXIDLE || state == RADIO_STATE_RXDISABLE
        || state == RADIO_STATE_RX
}

impl Radio {
    /// An engine without buffers, clients or alarm, set to channel 26 at
    /// 0 dBm, with the backoff exponent at its minimum and the nonce at its
    /// seed.
    pub fn new() -> (radio: Radio)
        ensures
            radio@ == RadioState::initial(),
            radio@.wf(),
    {
        let radio = Radio {
            tx_power: TxPower::ZerodBm,
            rx_client: false,
            tx_client: false,
            tx_buf: None,
            rx_buf: None,
            addr: 0,
            addr_long: [0x00; 8],
            pan: 0,
            cca_count: 0,
            cca_be: IEEE802154_MIN_BE,
            random_nonce: NONCE_SEED,
            channel: RadioChannel::DataChannel26,
            transmitting: false,
            timer0: false,
        };
        assert(radio@.addr_long =~= RadioState::initial().addr_long);
        radio
    }

    /// Records that an alarm is attached, so that backoffs can be timed.
    pub fn set_timer_ref(&mut self)
        ensures
            final(self)@ == (RadioState { timer: true, ..old(self)@ }),
            final(self)@ == old(self)@.apply(Call::SetTimerRef),
            old(self)@.wf() ==> final(self)@.wf(),
    {
        self.timer0 = true;
    }

    /// Whether the radio is set up for IEEE 802.15.4, given the word read
    /// from its MODE register.
    pub fn is_enabled(&self, mode: u32) -> (enabled: bool)
        ensures
            enabled == (BitField::ModeMode.layout().extract(mode)
                == RADIO_MODE_IEEE802154_250KBIT),
    {
        mode_is_ieee802154(mode)
    }

    /// Whether the engine holds the buffer that the radio is to work on next:
    /// the frame while a transmission is in flight, the receive buffer
    /// otherwise. Every operation that enters RX needs it.
    pub fn can_listen(&self) -> (yes: bool)
        ensures
            yes == self@.can_listen(),
    {
        if self.transmitting {
            self.tx_buf.is_some()
        } else {
            self.rx_buf.is_some()
        }
    }

    /// The radio is pointed one byte into the buffer, at the PHY length
    /// byte: the byte in front of it belongs to the buffer's layout, not to
    /// this radio.
    fn set_dma_ptr(&self) -> (op: RadioOp)
        ensures
            op == (RadioOp::PointDma { slot: self@.dma_slot(), offset: MIMIC_PSDU_OFFSET }),
    {
        if self.transmitting {
            RadioOp::PointDma { slot: BufferSlot::Tx, offset: MIMIC_PSDU_OFFSET }
        } else {
            RadioOp::PointDma { slot: BufferSlot::Rx, offset: MIMIC_PSDU_OFFSET }
        }
    }

    /// Enters RX on the current buffer. A transmission starts here as well:
    /// the channel is assessed from RX.
    fn rx(&self) -> (ops: Vec<RadioOp>)
        requires
            self@.can_listen(),
        ensures
            ops@ == self@.rx_ops(),
    {
        let mut ops: Vec<RadioOp> = Vec::new();
        ops.push(RadioOp::ClearEvent(Event::Ready));
        ops.push(self.set_dma_ptr());
        ops.push(RadioOp::Trigger(Task::RxEn));
        ops.push(self.enable_interrupts());
        assert(ops@ =~= self@.rx_ops());
        ops
    }

    /// Resets the peripheral and powers it.
    fn radio_on(&self) -> (ops: Vec<RadioOp>)
        ensures
            ops@ == radio_on_ops(),
    {
        let mut ops: Vec<RadioOp> = Vec::new();
        ops.push(RadioOp::Write(Register::Power, 0));
        ops.push(RadioOp::Write(Register::Power, 1));
        assert(ops@ =~= radio_on_ops());
        ops
    }

    fn radio_off(&self) -> (ops: Vec<RadioOp>)
        ensures
            ops@ == radio_off_ops(),
    {
        let mut ops: Vec<RadioOp> = Vec::new();
        ops.push(RadioOp::Write(Register::Power, 0));
        assert(ops@ =~= radio_off_ops());
        ops
    }

    /// READY: the radio has ramped up.
    fn on_ready(&self, status: &InterruptStatus, actions: &mut Vec<Action>)
        ensures
            final(actions).deep_view() == old(actions).deep_view() + as_actions(
                self@.ready_ops(*status),
            ),
    {
        if is_latched(status.ready) {
            push_op(actions, RadioOp::ClearEvent(Event::Ready));
            push_op(actions, RadioOp::ClearEvent(Event::End));
            if self.transmitting && status.state == RADIO_STATE_RXIDLE {
                push_op(actions, RadioOp::Trigger(Task::CcaStart));
            } else {
                push_op(actions, RadioOp::Trigger(Task::Start));
            }
        }
        assert(actions.deep_view() =~= old(actions).deep_view() + as_actions(
            self@.ready_ops(*status),
        ));
    }

    /// FRAMESTART: the length field of a frame has arrived.
    fn on_framestart(&self, status: &InterruptStatus, actions: &mut Vec<Action>)
        ensures
            final(actions).deep_view() == old(actions).deep_view() + as_actions(
                framestart_ops(*status),
            ),
    {
        if is_latched(status.framestart) {
            push_op(actions, RadioOp::ClearEvent(Event::FrameStart));
        }
        assert(actions.deep_view() =~= old(actions).deep_view() + as_actions(
            framestart_ops(*status),
        ));
    }

    /// CCAIDLE: the channel is clear, so the transmitter is started.
    fn on_ccaidle(&self, status: &InterruptStatus, actions: &mut Vec<Action>)
        ensures
            final(actions).deep_view() == old(actions).deep_view() + as_actions(
                ccaidle_ops(*status),
            ),
    {
        if is_latched(status.ccaidle) {
            push_op(actions, RadioOp::ClearEvent(Event::CcaIdle));
            push_op(actions, RadioOp::Trigger(Task::TxEn));
        }
        assert(actions.deep_view() =~= old(actions).deep_view() + as_actions(
            ccaidle_ops(*status),
        ));
    }

    /// CCABUSY: back off for a random number of periods, as the CSMA-CA
    /// algorithm of IEEE 802.15.4 asks, or give the transmission up when no
    /// attempt is left.
    fn on_ccabusy(&mut self, status: &InterruptStatus, actions: &mut Vec<Action>)
        requires
            old(self)@.wf(),
            latched(status.ccabusy) && old(self)@.backs_off() ==> old(self)@.timer,
            latched(status.ccabusy) && !old(self)@.backs_off() && old(self)@.tx_client
                ==> old(self)@.tx_buf is Some,
        ensures
            final(self)@ == old(self)@.after_busy(*status),
            final(self)@.wf(),
            final(actions).deep_view() == old(actions).deep_view() + old(self)@.busy_actions(
                *status,
            ),
    {
        if is_latched(status.ccabusy) {
            push_op(actions, RadioOp::ClearEvent(Event::CcaBusy));
            push_op(actions, RadioOp::ClearEvent(Event::Ready));
            push_op(actions, RadioOp::Trigger(Task::Disable));
            push_op(actions, RadioOp::AwaitEvent(Event::Disabled));
            push_op(actions, RadioOp::ClearEvent(Event::Disabled));
            assert(actions.deep_view() =~= old(actions).deep_view() + as_actions(
                ccabusy_prologue(),
            ));
            if self.cca_count < IEEE802154_MAX_POLLING_ATTEMPTS {
                self.cca_count = self.cca_count + 1;
                if self.cca_be < IEEE802154_MAX_BE {
                    self.cca_be = self.cca_be + 1;
                }
                let nonce: u32 = self.random_nonce();
                let dt: u32 = backoff_microseconds(nonce, self.cca_be);
                push_action(actions, Action::SetAlarm { reference: 0, dt });
            } else {
                self.transmitting = false;
                if self.tx_client {
                    let tbuf: Vec<u8> = self.tx_buf.take().unwrap();
                    push_action(
                        actions,
                        Action::SendDone { buf: tbuf, acked: false, result: Err(ErrorCode::BUSY) },
                    );
                }
            }
            push_op(actions, self.enable_interrupts());
        }
        assert(actions.deep_view() =~= old(actions).deep_view() + old(self)@.busy_actions(
            *status,
        ));
    }

    /// END: a frame was sent or received.
    fn on_end(&mut self, status: &InterruptStatus, actions: &mut Vec<Action>)
        requires
            old(self)@.wf(),
            old(self)@.end_admissible(*status),
        ensures
            final(self)@ == old(self)@.after_end(*status),
            final(self)@.wf(),
            final(actions).deep_view() == old(actions).deep_view() + old(self)@.end_actions(
                *status,
            ),
    {
        if is_latched(status.end) && !is_latched(status.ready) {
            push_op(actions, RadioOp::ClearEvent(Event::End));
            let crc_ok: bool = is_latched(status.crcstatus);
            let result: Result<(), ErrorCode> = if crc_ok {
                Ok(())
            } else {
                Err(ErrorCode::FAIL)
            };
            if is_tx_family(status.state) {
                self.transmitting = false;
                // What the CRC status says means nothing for a frame sent.
                if self.tx_client {
                    let tbuf: Vec<u8> = self.tx_buf.take().unwrap();
                    push_action(
                        actions,
                        Action::SendDone { buf: tbuf, acked: false, result: Ok(()) },
                    );
                }
            } else if is_rx_family(status.state) {
                if self.rx_client {
                    let rbuf: Vec<u8> = self.rx_buf.take().unwrap();
                    // The length byte counts the frame and its CRC.
                    let frame_len: usize = rbuf[MIMIC_PSDU_OFFSET] as usize - MFR_SIZE;
                    push_action(actions, Action::Receive { buf: rbuf, frame_len, crc_ok, result });
                }
            }
        }
        assert(actions.deep_view() =~= old(actions).deep_view() + old(self)@.end_actions(
            *status,
        ));
    }

    /// One pass of the interrupt handler.
    ///
    /// `status` holds the event registers, STATE and CRCSTATUS as the
    /// platform read them when the interrupt came. The handler masks the
    /// interrupts and goes through READY, FRAMESTART, CCAIDLE, CCABUSY and
    /// END in this order; an event that an earlier step has acknowledged is
    /// not handled again. What it returns is for the platform to carry out in
    /// order. Unless a frame was completed, the last operation unmasks the
    /// interrupts; after a frame the platform delivers the notification,
    /// which lets the client hand in a new buffer, and then performs
    /// `power_cycle`.
    ///
    /// The handler needs an alarm where it has to back off, a buffer for
    /// each client that it has to notify, and a received buffer that names a
    /// frame: `can_handle_interrupt` tells.
    pub fn handle_interrupt(&mut self, status: &InterruptStatus) -> (out: InterruptOutcome)
        requires
            old(self)@.wf(),
            old(self)@.interrupt_admissible(*status),
        ensures
            final(self)@ == old(self)@.after_interrupt(*status),
            final(self)@ == old(self)@.apply(Call::HandleInterrupt { status: *status }),
            final(self)@.wf(),
            out.actions.deep_view() == old(self)@.interrupt_actions(*status),
            out.frame_complete == status.end_pending(),
    {
        let mut actions: Vec<Action> = Vec::new();
        push_op(&mut actions, self.disable_all_interrupts());
        assert(actions.deep_view() =~= seq![ActionView::Radio(disable_all_interrupts_op())]);
        self.on_ready(status, &mut actions);
        self.on_framestart(status, &mut actions);
        self.on_ccaidle(status, &mut actions);
        self.on_ccabusy(status, &mut actions);
        self.on_end(status, &mut actions);
        let frame_complete: bool = is_latched(status.end) && !is_latched(status.ready);
        if !frame_complete {
            push_op(&mut actions, self.enable_interrupts());
        } else {
            assert(actions.deep_view() + Seq::<ActionView>::empty() =~= actions.deep_view());
        }
        InterruptOutcome { actions, frame_complete }
    }

    /// The operation that unmasks the interrupt sources the driver listens
    /// to.
    pub fn enable_interrupts(&self) -> (op: RadioOp)
        ensures
            op == enable_interrupts_op(),
    {
        RadioOp::Write(Register::IntenSet, driver_interrupts())
    }

    /// The operation that unmasks the interrupt sources in `intr`.
    pub fn enable_interrupt(&self, intr: u32) -> (op: RadioOp)
        ensures
            op == RadioOp::Write(Register::IntenSet, intr),
    {
        RadioOp::Write(Register::IntenSet, intr)
    }

    /// The operation that masks the interrupt sources in `intr`.
    pub fn clear_interrupt(&self, intr: u32) -> (op: RadioOp)
        ensures
            op == RadioOp::Write(Register::IntenClr, intr),
    {
        RadioOp::Write(Register::IntenClr, intr)
    }

    /// The operation that masks every interrupt source.
    pub fn disable_all_interrupts(&self) -> (op: RadioOp)
        ensures
            op == disable_all_interrupts_op(),
    {
        RadioOp::Write(Register::IntenClr, ALL_INTERRUPTS)
    }

    fn ieee802154_set_channel_rate(&self, ops: &mut Vec<RadioOp>)
        ensures
            final(ops)@ == old(ops)@.push(RadioOp::Write(Register::Mode, mode_word_of())),
    {
        ops.push(RadioOp::Write(Register::Mode, mode_word()));
    }

    fn ieee802154_set_packet_config(&self, ops: &mut Vec<RadioOp>)
        ensures
            final(ops)@ == old(ops)@.push(
                RadioOp::Write(Register::Pcnf0, pcnf0_word_of()),
            ).push(RadioOp::Write(Register::Pcnf1, pcnf1_word_of())),
    {
        ops.push(RadioOp::Write(Register::Pcnf0, pcnf0_word()));
        ops.push(RadioOp::Write(Register::Pcnf1, pcnf1_word()));
    }

    fn ieee802154_set_crc_config(&self, ops: &mut Vec<RadioOp>)
        ensures
            final(ops)@ == old(ops)@.push(
                RadioOp::Write(Register::CrcCnf, crccnf_word_of()),
            ).push(RadioOp::Write(Register::CrcInit, RADIO_CRCINIT_IEEE802154)).push(
                RadioOp::Write(Register::CrcPoly, RADIO_CRCPOLY_IEEE802154),
            ),
    {
        ops.push(RadioOp::Write(Register::CrcCnf, crccnf_word()));
        ops.push(RadioOp::Write(Register::CrcInit, RADIO_CRCINIT_IEEE802154));
        ops.push(RadioOp::Write(Register::CrcPoly, RADIO_CRCPOLY_IEEE802154));
    }

    fn ieee802154_set_rampup_mode(&self, ops: &mut Vec<RadioOp>)
        ensures
            final(ops)@ == old(ops)@.push(
                RadioOp::Write(Register::ModeCnf0, modecnf0_word_of()),
            ),
    {
        ops.push(RadioOp::Write(Register::ModeCnf0, modecnf0_word()));
    }

    fn ieee802154_set_cca_config(&self, ops: &mut Vec<RadioOp>)
        ensures
            final(ops)@ == old(ops)@.push(
                RadioOp::Write(Register::CcaCtrl, ccactrl_word_of()),
            ),
    {
        ops.push(RadioOp::Write(Register::CcaCtrl, ccactrl_word()));
    }

    fn ieee802154_set_tx_power(&self, ops: &mut Vec<RadioOp>)
        ensures
            final(ops)@ == old(ops)@.push(
                RadioOp::Write(Register::TxPower, self@.tx_power.code() as u32),
            ),
    {
        ops.push(RadioOp::Write(Register::TxPower, txpower_word(self.tx_power)));
    }

    fn ieee802154_set_channel_freq(&self, channel: RadioChannel, ops: &mut Vec<RadioOp>)
        ensures
            final(ops)@ == old(ops)@.push(
                RadioOp::Write(Register::Frequency, frequency_word_of(channel)),
            ),
    {
        ops.push(RadioOp::Write(Register::Frequency, frequency_word(channel)));
    }

    fn set_tx_address(&self, ops: &mut Vec<RadioOp>)
        ensures
            final(ops)@ == old(ops)@.push(
                RadioOp::Write(Register::TxAddress, txaddress_word_of()),
            ),
    {
        ops.push(RadioOp::Write(Register::TxAddress, txaddress_word()));
    }

    fn set_rx_address(&self, ops: &mut Vec<RadioOp>)
        ensures
            final(ops)@ == old(ops)@.push(
                RadioOp::Write(Register::RxAddresses, rxaddresses_word_of()),
            ),
    {
        ops.push(RadioOp::Write(Register::RxAddresses, rxaddresses_word()));
    }

    fn radio_initialize(&self) -> (ops: Vec<RadioOp>)
        requires
            self@.can_listen(),
        ensures
            ops@ == self@.initialize_ops(),
    {
        let mut ops: Vec<RadioOp> = self.radio_on();

        // Disable the radio and wait until it is disabled.
        ops.push(RadioOp::ClearEvent(Event::Disabled));
        ops.push(RadioOp::Trigger(Task::Disable));
        ops.push(RadioOp::AwaitEvent(Event::Disabled));
        assert(ops@ =~= radio_on_ops() + disable_ops());

        self.ieee802154_set_channel_rate(&mut ops);
        self.ieee802154_set_packet_config(&mut ops);
        self.ieee802154_set_crc_config(&mut ops);
        self.ieee802154_set_rampup_mode(&mut ops);
        self.ieee802154_set_cca_config(&mut ops);
        self.ieee802154_set_tx_power(&mut ops);
        self.ieee802154_set_channel_freq(self.channel, &mut ops);
        self.set_tx_address(&mut ops);
        self.set_rx_address(&mut ops);
        assert(ops@ =~= radio_on_ops() + disable_ops() + self@.configure_ops());

        // Sending and receiving both begin by entering RX.
        let mut enter_rx: Vec<RadioOp> = self.rx();
        ops.append(&mut enter_rx);
        ops
    }

    /// Brings the radio up: the operations that power it, configure it for
    /// IEEE 802.15.4 with the staged channel and output power, and enter RX.
    /// The answer is always `Ok`, and the same as long as nothing is staged.
    /// The receive buffer has to be handed in first (`can_listen`).
    pub fn startup(&self) -> (res: Result<Vec<RadioOp>, ErrorCode>)
        requires
            self@.can_listen(),
        ensures
            res matches Ok(ops) && ops@ == self@.initialize_ops(),
    {
        Ok(self.radio_initialize())
    }

    /// The power cycle that follows every frame: power down, initialise,
    /// enter RX. The platform performs it after it has delivered the
    /// notifications of an interrupt that completed a frame, by which time
    /// the client has handed in the buffer for the next frame
    /// (`can_listen`). It ends by unmasking the interrupts.
    pub fn power_cycle(&self) -> (ops: Vec<RadioOp>)
        requires
            self@.can_listen(),
        ensures
            ops@ == self@.power_cycle_ops(),
    {
        let mut ops: Vec<RadioOp> = self.radio_off();
        let mut initialize: Vec<RadioOp> = self.radio_initialize();
        ops.append(&mut initialize);
        let mut enter_rx: Vec<RadioOp> = self.rx();
        ops.append(&mut enter_rx);
        ops.push(self.enable_interrupts());
        assert(ops@ =~= self@.power_cycle_ops());
        ops
    }

    /// The alarm fired: the backoff is over, and the radio enters RX for the
    /// next channel assessment. The engine still holds the frame then
    /// (`can_listen`).
    pub fn alarm(&self) -> (ops: Vec<RadioOp>)
        requires
            self@.can_listen(),
        ensures
            ops@ == self@.rx_ops(),
    {
        self.rx()
    }

    /// Whether a transmission is in flight.
    pub fn is_transmitting(&self) -> (yes: bool)
        ensures
            yes == self@.transmitting,
    {
        self.transmitting
    }

    /// The number of busy channel assessments that the current transmission
    /// has backed off from.
    pub fn backoff_attempts(&self) -> (count: u8)
        ensures
            count == self@.cca_count,
    {
        self.cca_count
    }

    /// The current backoff exponent.
    pub fn backoff_exponent(&self) -> (be: u8)
        ensures
            be == self@.cca_be,
    {
        self.cca_be
    }

    /// Whether the handler has what it needs to work on `status`.
    pub fn can_handle_interrupt(&self, status: &InterruptStatus) -> (yes: bool)
        ensures
            yes == self@.interrupt_admissible(*status),
    {
        let busy: bool = is_latched(status.ccabusy);
        let backs_off: bool = self.cca_count < IEEE802154_MAX_POLLING_ATTEMPTS;
        if busy && backs_off && !self.timer0 {
            return false;
        }
        let hands_back: bool = busy && !backs_off && self.tx_client;
        if hands_back && self.tx_buf.is_none() {
            return false;
        }
        let end_pending: bool = is_latched(status.end) && !is_latched(status.ready);
        if !end_pending {
            true
        } else if is_tx_family(status.state) {
            !self.tx_client || (self.tx_buf.is_some() && !hands_back)
        } else if is_rx_family(status.state) {
            if !self.rx_client {
                true
            } else {
                match &self.rx_buf {
                    Some(buf) => buf.len() > MIMIC_PSDU_OFFSET && buf[MIMIC_PSDU_OFFSET] as usize
                        >= MFR_SIZE,
                    None => false,
                }
            }
        } else {
            true
        }
    }

    /// The buffer that the engine holds in `slot`, for the platform to take
    /// its address.
    pub fn buffer(&self, slot: BufferSlot) -> (buf: Option<&Vec<u8>>)
        ensures
            slot == BufferSlot::Tx ==> (match buf {
                Some(b) => self@.tx_buf == Some(b@),
                None => self@.tx_buf is None,
            }),
            slot == BufferSlot::Rx ==> (match buf {
                Some(b) => self@.rx_buf == Some(b@),
                None => self@.rx_buf is None,
            }),
    {
        match slot {
            BufferSlot::Tx => self.tx_buf.as_ref(),
            BufferSlot::Rx => self.rx_buf.as_ref(),
        }
    }

    /// Brings the radio up, as `startup` does. The receive buffer has to be
    /// handed in first (`can_listen`).
    pub fn initialize(&self) -> (res: Result<Vec<RadioOp>, ErrorCode>)
        requires
            self@.can_listen(),
        ensures
            res matches Ok(ops) && ops@ == self@.initialize_ops(),
    {
        Ok(self.radio_initialize())
    }

    /// The driver has nothing to tell a power client.
    pub fn set_power_client(&self) {
    }

    /// Powers the radio up.
    pub fn reset(&self) -> (res: Result<Vec<RadioOp>, ErrorCode>)
        ensures
            res matches Ok(ops) && ops@ == radio_on_ops(),
    {
        Ok(self.radio_on())
    }

    /// Powers the radio up.
    pub fn start(&self) -> (res: Result<Vec<RadioOp>, ErrorCode>)
        ensures
            res matches Ok(ops) && ops@ == radio_on_ops(),
    {
        self.reset()
    }

    /// Powers the radio down.
    pub fn stop(&self) -> (res: Result<Vec<RadioOp>, ErrorCode>)
        ensures
            res matches Ok(ops) && ops@ == radio_off_ops(),
    {
        Ok(self.radio_off())
    }

    /// The engine keeps no record of the power state: the radio counts as on.
    pub fn is_on(&self) -> (on: bool)
        ensures
            on,
    {
        true
    }

    /// The driver never reports itself busy.
    pub fn busy(&self) -> (busy: bool)
        ensures
            !busy,
    {
        false
    }

    /// Commits the staged address, PAN, output power and channel to the
    /// hardware: power down, then initialise. The receive buffer has to be
    /// handed in first (`can_listen`).
    pub fn config_commit(&self) -> (ops: Vec<RadioOp>)
        requires
            self@.can_listen(),
        ensures
            ops@ == self@.commit_ops(),
    {
        let mut ops: Vec<RadioOp> = self.radio_off();
        let mut initialize: Vec<RadioOp> = self.radio_initialize();
        ops.append(&mut initialize);
        ops
    }

    /// The driver has nothing to tell a configuration client.
    pub fn set_config_client(&self) {
    }

    /// The 16-bit short address.
    pub fn get_address(&self) -> (addr: u16)
        ensures
            addr == self@.addr,
    {
        self.addr
    }

    /// The 64-bit extended address.
    pub fn get_address_long(&self) -> (addr: [u8; 8])
        ensures
            addr@ == self@.addr_long,
    {
        self.addr_long
    }

    /// The 16-bit PAN ID.
    pub fn get_pan(&self) -> (id: u16)
        ensures
            id == self@.pan,
    {
        self.pan
    }

    /// The transmit power, in dBm.
    pub fn get_tx_power(&self) -> (dbm: i8)
        ensures
            dbm == self@.tx_power.dbm(),
    {
        self.tx_power.as_dbm()
    }

    /// The 802.15.4 channel.
    pub fn get_channel(&self) -> (chan: u8)
        ensures
            chan == self@.channel.index(),
    {
        self.channel.get_channel_index()
    }

    /// Stores the 16-bit short address. The hardware does not filter by it.
    pub fn set_address(&mut self, addr: u16)
        ensures
            final(self)@ == (RadioState { addr, ..old(self)@ }),
            final(self)@ == old(self)@.apply(Call::SetAddress { addr }),
            old(self)@.wf() ==> final(self)@.wf(),
    {
        self.addr = addr;
    }

    /// Stores the 64-bit extended address.
    pub fn set_address_long(&mut self, addr: [u8; 8])
        ensures
            final(self)@ == (RadioState { addr_long: addr@, ..old(self)@ }),
            final(self)@ == old(self)@.apply(Call::SetAddressLong { bytes: addr@ }),
            old(self)@.wf() ==> final(self)@.wf(),
    {
        self.addr_long = addr;
    }

    /// Stores the 16-bit PAN ID.
    pub fn set_pan(&mut self, id: u16)
        ensures
            final(self)@ == (RadioState { pan: id, ..old(self)@ }),
            final(self)@ == old(self)@.apply(Call::SetPan { id }),
            old(self)@.wf() ==> final(self)@.wf(),
    {
        self.pan = id;
    }

    /// Stages channel `chan` for the next commit, if the band has it.
    pub fn set_channel(&mut self, chan: u8) -> (res: Result<(), ErrorCode>)
        ensures
            match RadioChannel::from_index(chan as nat) {
                Some(channel) => res == Ok::<(), ErrorCode>(()) && final(self)@ == (RadioState {
                    channel,
                    ..old(self)@
                }),
                None => res == Err::<(), ErrorCode>(ErrorCode::NOSUPPORT)
                    && final(self)@ == old(self)@,
            },
            res is Ok <==> 11 <= chan <= 26,
            final(self)@ == old(self)@.apply(Call::SetChannel { chan }),
            old(self)@.wf() ==> final(self)@.wf(),
    {
        match RadioChannel::try_from(chan) {
            Err(_) => Err(ErrorCode::NOSUPPORT),
            Ok(res) => {
                self.channel = res;
                Ok(())
            },
        }
    }

    /// Stages an output power of `tx_power` dBm for the next commit, if the
    /// radio offers it.
    pub fn set_tx_power(&mut self, tx_power: i8) -> (res: Result<(), ErrorCode>)
        ensures
            match TxPower::from_dbm_spec(tx_power as int) {
                Some(power) => res == Ok::<(), ErrorCode>(()) && final(self)@ == (RadioState {
                    tx_power: power,
                    ..old(self)@
                }),
                None => res == Err::<(), ErrorCode>(ErrorCode::NOSUPPORT)
                    && final(self)@ == old(self)@,
            },
            res is Ok <==> TxPower::supported(tx_power as int),
            final(self)@ == old(self)@.apply(Call::SetTxPower { dbm: tx_power }),
            old(self)@.wf() ==> final(self)@.wf(),
    {
        match TxPower::from_dbm(tx_power) {
            // Not a level of this radio.
            Err(_) => Err(ErrorCode::NOSUPPORT),
            Ok(res) => {
                self.tx_power = res;
                Ok(())
            },
        }
    }

    /// Registers the receive client and hands in the buffer for the next
    /// frame. A buffer that was still in the slot comes back.
    pub fn set_receive_client(&mut self, buffer: Vec<u8>) -> (displaced: Option<Vec<u8>>)
        ensures
            final(self)@ == (RadioState {
                rx_client: true,
                rx_buf: Some(buffer@),
                ..old(self)@
            }),
            final(self)@ == old(self)@.apply(Call::SetReceiveClient { buf: buffer@ }),
            old(self)@.wf() ==> final(self)@.wf(),
            bytes_of(displaced) == old(self)@.rx_buf,
    {
        self.rx_client = true;
        let displaced: Option<Vec<u8>> = self.rx_buf.take();
        self.rx_buf = Some(buffer);
        displaced
    }

    /// Hands in the buffer for the next frame. A buffer that was still in
    /// the slot comes back.
    pub fn set_receive_buffer(&mut self, buffer: Vec<u8>) -> (displaced: Option<Vec<u8>>)
        ensures
            final(self)@ == (RadioState { rx_buf: Some(buffer@), ..old(self)@ }),
            final(self)@ == old(self)@.apply(Call::SetReceiveBuffer { buf: buffer@ }),
            old(self)@.wf() ==> final(self)@.wf(),
            bytes_of(displaced) == old(self)@.rx_buf,
    {
        let displaced: Option<Vec<u8>> = self.rx_buf.take();
        self.rx_buf = Some(buffer);
        displaced
    }

    /// Registers the transmit client.
    pub fn set_transmit_client(&mut self)
        ensures
            final(self)@ == (RadioState { tx_client: true, ..old(self)@ }),
            final(self)@ == old(self)@.apply(Call::SetTransmitClient),
            old(self)@.wf() ==> final(self)@.wf(),
    {
        self.tx_client = true;
    }

    /// Takes a frame of `frame_len` bytes, which the MAC layer has placed at
    /// `PSDU_OFFSET` in `buf`, for transmission.
    ///
    /// While a frame is in flight the answer is BUSY; a frame that leaves no
    /// room for its CRC is answered with SIZE. Both hand the buffer back
    /// untouched. Otherwise the engine writes the PHY length byte, keeps the
    /// buffer, starts the CSMA-CA algorithm afresh, and returns the
    /// operations that restart the radio.
    pub fn transmit(&mut self, mut buf: Vec<u8>, frame_len: usize) -> (res: Result<
        Vec<RadioOp>,
        (ErrorCode, Vec<u8>),
    >)
        requires
            old(self)@.wf(),
        ensures
            final(self)@.wf(),
            final(self)@ == old(self)@.apply(Call::Transmit { buf: buf@, frame_len }),
            match old(self)@.transmit_error(buf@.len(), frame_len as nat) {
                Some(code) => (res matches Err((error, returned)) && error == code && returned@
                    == buf@) && final(self)@ == old(self)@,
                None => (res matches Ok(ops) && ops@ == final(self)@.commit_ops()) && final(self)@
                    == old(self)@.after_transmit(buf@, frame_len),
            },
    {
        if self.tx_buf.is_some() || self.transmitting {
            return Err((ErrorCode::BUSY, buf));
        } else if buf.len() < PSDU_OFFSET || frame_len >= buf.len() - PSDU_OFFSET {
            // Not enough room for the CRC.
            return Err((ErrorCode::SIZE, buf));
        }
        buf[MIMIC_PSDU_OFFSET] = ((frame_len + MFR_SIZE) % 256) as u8;
        self.tx_buf = Some(buf);

        self.transmitting = true;

        self.cca_count = 0;
        self.cca_be = IEEE802154_MIN_BE;

        let mut ops: Vec<RadioOp> = self.radio_off();
        let mut initialize: Vec<RadioOp> = self.radio_initialize();
        ops.append(&mut initialize);
        Ok(ops)
    }

    /// Draws the next pseudo-random number.
    pub fn random_nonce(&mut self) -> (nonce: u32)
        ensures
            nonce == xorshift(old(self)@.random_nonce),
            final(self)@ == (RadioState { random_nonce: nonce, ..old(self)@ }),
            final(self)@ == old(self)@.apply(Call::RandomNonce),
            old(self)@.wf() ==> final(self)@.wf(),
    {
        self.random_nonce = next_nonce(self.random_nonce);
        self.random_nonce
    }
}

} // verus!
