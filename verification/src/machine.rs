//! The driver as the kernel sees it: the engine together with the state in
//! which the peripheral was last seen.
//!
//! Every operation of the engine is available in every peripheral state and
//! leaves the recorded state alone. The recorded state changes only when the
//! platform shows the tracker the STATE register, which it does after each
//! interrupt.
use vstd::prelude::*;
use crate::channel::RadioChannel;
use crate::config::BitField;
use crate::constants::RADIO_MODE_IEEE802154_250KBIT;
use crate::error::ErrorCode;
use crate::model::{bytes_of, radio_off_ops, radio_on_ops, RadioState};
use crate::ops::{BufferSlot, InterruptStatus, RadioOp};
use crate::power::TxPower;
use crate::radio::{InterruptOutcome, Radio};
use crate::state::{is_chain, PeripheralState, LONGEST_ROUTE};

verus! {

/// The engine and the peripheral state that was last observed.
pub ghost struct MachineState {
    pub radio: RadioState,
    pub state: PeripheralState,
}

/// The radio engine, tagged with the state of the peripheral.
pub struct RadioStateMachine {
    radio: Radio,
    state: PeripheralState,
}

/// The driver: every operation of the engine, available in every state of
/// the peripheral.
pub struct Ieee802154Radio {
    radio_state_machine: RadioStateMachine,
}

impl View for RadioStateMachine {
    type V = MachineState;

    closed spec fn view(&self) -> MachineState {
        MachineState { radio: self.radio@, state: self.state }
    }
}

impl View for Ieee802154Radio {
    type V = MachineState;

    closed spec fn view(&self) -> MachineState {
        self.radio_state_machine@
    }
}

impl RadioStateMachine {
    /// A radio starts in the DISABLED state.
    pub fn new() -> (machine: RadioStateMachine)
        ensures
            machine@.radio == RadioState::initial(),
            machine@.radio.wf(),
            machine@.state == PeripheralState::Disabled,
    {
        RadioStateMachine { radio: Radio::new(), state: PeripheralState::Disabled }
    }

    /// The state of the peripheral as it was last observed.
    pub fn state(&self) -> (state: PeripheralState)
        ensures
            state == self@.state,
    {
        self.state
    }

    /// Shows the tracker the STATE register. The tracker adopts the state
    /// that the word names and returns the chain of states that leads there
    /// from the state it had; a word that names no state changes nothing.
    pub fn state_transition(&mut self, word: u32) -> (route: Vec<PeripheralState>)
        ensures
            final(self)@.radio == old(self)@.radio,
            final(self)@.state == old(self)@.state.observe(word),
            route@ == old(self)@.state.route(final(self)@.state),
            is_chain(old(self)@.state, route@),
            route@.len() <= LONGEST_ROUTE,
            route@.len() > 0 ==> route@.last() == final(self)@.state,
    {
        let next: PeripheralState = self.state.state_transition(word);
        let route: Vec<PeripheralState> = self.state.route_to(next);
        self.state = next;
        route
    }
}

impl Ieee802154Radio {
    /// The driver starts in the DISABLED state.
    pub fn new() -> (radio: Ieee802154Radio)
        ensures
            radio@.radio == RadioState::initial(),
            radio@.radio.wf(),
            radio@.state == PeripheralState::Disabled,
    {
        Ieee802154Radio { radio_state_machine: RadioStateMachine::new() }
    }

    /// Records that an alarm is attached. The alarm is attached while the
    /// radio is being set up, that is in the DISABLED state; in any other
    /// state the call changes nothing.
    pub fn set_timer_ref(&mut self)
        ensures
            old(self)@.radio.wf() ==> final(self)@.radio.wf(),
            final(self)@.state == old(self)@.state,
            final(self)@.radio == if old(self)@.state == PeripheralState::Disabled {
                RadioState { timer: true, ..old(self)@.radio }
            } else {
                old(self)@.radio
            },
    {
        match self.radio_state_machine.state {
            PeripheralState::Disabled => self.radio_state_machine.radio.set_timer_ref(),
            _ => {},
        }
    }

    /// Whether the radio is set up for IEEE 802.15.4, given the word read
    /// from its MODE register. The answer is the same in every state.
    pub fn is_enabled(&self, mode: u32) -> (enabled: bool)
        ensures
            enabled == (BitField::ModeMode.layout().extract(mode)
                == RADIO_MODE_IEEE802154_250KBIT),
    {
        self.radio_state_machine.radio.is_enabled(mode)
    }

    /// The state of the peripheral as it was last observed.
    pub fn state(&self) -> (state: PeripheralState)
        ensures
            state == self@.state,
    {
        self.radio_state_machine.state
    }

    /// Whether the handler has what it needs to work on `status`.
    pub fn can_handle_interrupt(&self, status: &InterruptStatus) -> (yes: bool)
        ensures
            yes == self@.radio.interrupt_admissible(*status),
    {
        self.radio_state_machine.radio.can_handle_interrupt(status)
    }

    /// Whether the engine holds the buffer that the radio is to work on next.
    pub fn can_listen(&self) -> (yes: bool)
        ensures
            yes == self@.radio.can_listen(),
    {
        self.radio_state_machine.radio.can_listen()
    }

    /// The buffer that the engine holds in `slot`.
    pub fn buffer(&self, slot: BufferSlot) -> (buf: Option<&Vec<u8>>)
        ensures
            slot == BufferSlot::Tx ==> (match buf {
                Some(b) => self@.radio.tx_buf == Some(b@),
                None => self@.radio.tx_buf is None,
            }),
            slot == BufferSlot::Rx ==> (match buf {
                Some(b) => self@.radio.rx_buf == Some(b@),
                None => self@.radio.rx_buf is None,
            }),
    {
        self.radio_state_machine.radio.buffer(slot)
    }

    /// One pass of the interrupt handler. State transitions happen during
    /// interrupts: once the platform has carried the outcome out, it shows
    /// the STATE register to `state_transition`.
    pub fn handle_interrupt(&mut self, status: &InterruptStatus) -> (out: InterruptOutcome)
        requires
            old(self)@.radio.wf(),
            old(self)@.radio.interrupt_admissible(*status),
        ensures
            final(self)@.state == old(self)@.state,
            final(self)@.radio == old(self)@.radio.after_interrupt(*status),
            final(self)@.radio.wf(),
            out.actions.deep_view() == old(self)@.radio.interrupt_actions(*status),
            out.frame_complete == status.end_pending(),
    {
        self.radio_state_machine.radio.handle_interrupt(status)
    }

    /// The power cycle that follows every frame.
    pub fn power_cycle(&self) -> (ops: Vec<RadioOp>)
        requires
            self@.radio.can_listen(),
        ensures
            ops@ == self@.radio.power_cycle_ops(),
    {
        self.radio_state_machine.radio.power_cycle()
    }

    /// Shows the tracker the STATE register; see
    /// `RadioStateMachine::state_transition`.
    pub fn state_transition(&mut self, word: u32) -> (route: Vec<PeripheralState>)
        ensures
            final(self)@.radio == old(self)@.radio,
            final(self)@.state == old(self)@.state.observe(word),
            route@ == old(self)@.state.route(final(self)@.state),
            is_chain(old(self)@.state, route@),
            route@.len() <= LONGEST_ROUTE,
            route@.len() > 0 ==> route@.last() == final(self)@.state,
    {
        self.radio_state_machine.state_transition(word)
    }

    /// The alarm fired: the radio enters RX for the next channel assessment.
    pub fn alarm(&self) -> (ops: Vec<RadioOp>)
        requires
            self@.radio.can_listen(),
        ensures
            ops@ == self@.radio.rx_ops(),
    {
        self.radio_state_machine.radio.alarm()
    }

    /// Brings the radio up; see `Radio::initialize`.
    pub fn initialize(&self) -> (res: Result<Vec<RadioOp>, ErrorCode>)
        requires
            self@.radio.can_listen(),
        ensures
            res matches Ok(ops) && ops@ == self@.radio.initialize_ops(),
    {
        self.radio_state_machine.radio.initialize()
    }

    /// Powers the radio up.
    pub fn reset(&self) -> (res: Result<Vec<RadioOp>, ErrorCode>)
        ensures
            res matches Ok(ops) && ops@ == radio_on_ops(),
    {
        self.radio_state_machine.radio.reset()
    }

    /// Powers the radio up.
    pub fn start(&self) -> (res: Result<Vec<RadioOp>, ErrorCode>)
        ensures
            res matches Ok(ops) && ops@ == radio_on_ops(),
    {
        self.radio_state_machine.radio.start()
    }

    /// Powers the radio down.
    pub fn stop(&self) -> (res: Result<Vec<RadioOp>, ErrorCode>)
        ensures
            res matches Ok(ops) && ops@ == radio_off_ops(),
    {
        self.radio_state_machine.radio.stop()
    }

    /// The radio counts as on.
    pub fn is_on(&self) -> (on: bool)
        ensures
            on,
    {
        self.radio_state_machine.radio.is_on()
    }

    /// The driver never reports itself busy.
    pub fn busy(&self) -> (busy: bool)
        ensures
            !busy,
    {
        self.radio_state_machine.radio.busy()
    }

    /// The driver has nothing to tell a power client.
    pub fn set_power_client(&self) {
        self.radio_state_machine.radio.set_power_client()
    }

    /// Commits the staged configuration; see `Radio::config_commit`.
    pub fn config_commit(&self) -> (ops: Vec<RadioOp>)
        requires
            self@.radio.can_listen(),
        ensures
            ops@ == self@.radio.commit_ops(),
    {
        self.radio_state_machine.radio.config_commit()
    }

    /// The driver has nothing to tell a configuration client.
    pub fn set_config_client(&self) {
        self.radio_state_machine.radio.set_config_client()
    }

    /// The 16-bit short address.
    pub fn get_address(&self) -> (addr: u16)
        ensures
            addr == self@.radio.addr,
    {
        self.radio_state_machine.radio.get_address()
    }

    /// The 64-bit extended address.
    pub fn get_address_long(&self) -> (addr: [u8; 8])
        ensures
            addr@ == self@.radio.addr_long,
    {
        self.radio_state_machine.radio.get_address_long()
    }

    /// The 16-bit PAN ID.
    pub fn get_pan(&self) -> (id: u16)
        ensures
            id == self@.radio.pan,
    {
        self.radio_state_machine.radio.get_pan()
    }

    /// The transmit power, in dBm.
    pub fn get_tx_power(&self) -> (dbm: i8)
        ensures
            dbm == self@.radio.tx_power.dbm(),
    {
        self.radio_state_machine.radio.get_tx_power()
    }

    /// The 802.15.4 channel.
    pub fn get_channel(&self) -> (chan: u8)
        ensures
            chan == self@.radio.channel.index(),
    {
        self.radio_state_machine.radio.get_channel()
    }

    /// Stores the 16-bit short address.
    pub fn set_address(&mut self, addr: u16)
        ensures
            old(self)@.radio.wf() ==> final(self)@.radio.wf(),
            final(self)@ == (MachineState {
                radio: RadioState { addr, ..old(self)@.radio },
                ..old(self)@
            }),
    {
        self.radio_state_machine.radio.set_address(addr)
    }

    /// Stores the 64-bit extended address.
    pub fn set_address_long(&mut self, addr: [u8; 8])
        ensures
            old(self)@.radio.wf() ==> final(self)@.radio.wf(),
            final(self)@ == (MachineState {
                radio: RadioState { addr_long: addr@, ..old(self)@.radio },
                ..old(self)@
            }),
    {
        self.radio_state_machine.radio.set_address_long(addr)
    }

    /// Stores the 16-bit PAN ID.
    pub fn set_pan(&mut self, id: u16)
        ensures
            old(self)@.radio.wf() ==> final(self)@.radio.wf(),
            final(self)@ == (MachineState {
                radio: RadioState { pan: id, ..old(self)@.radio },
                ..old(self)@
            }),
    {
        self.radio_state_machine.radio.set_pan(id)
    }

    /// Stages an output power; see `Radio::set_tx_power`.
    pub fn set_tx_power(&mut self, power: i8) -> (res: Result<(), ErrorCode>)
        ensures
            old(self)@.radio.wf() ==> final(self)@.radio.wf(),
            final(self)@.state == old(self)@.state,
            match TxPower::from_dbm_spec(power as int) {
                Some(level) => res == Ok::<(), ErrorCode>(()) && final(self)@.radio == (RadioState {
                    tx_power: level,
                    ..old(self)@.radio
                }),
                None => res == Err::<(), ErrorCode>(ErrorCode::NOSUPPORT) && final(self)@.radio
                    == old(self)@.radio,
            },
            res is Ok <==> TxPower::supported(power as int),
    {
        self.radio_state_machine.radio.set_tx_power(power)
    }

    /// Stages a channel; see `Radio::set_channel`.
    pub fn set_channel(&mut self, chan: u8) -> (res: Result<(), ErrorCode>)
        ensures
            old(self)@.radio.wf() ==> final(self)@.radio.wf(),
            final(self)@.state == old(self)@.state,
            match RadioChannel::from_index(chan as nat) {
                Some(channel) => res == Ok::<(), ErrorCode>(()) && final(self)@.radio
                    == (RadioState { channel, ..old(self)@.radio }),
                None => res == Err::<(), ErrorCode>(ErrorCode::NOSUPPORT) && final(self)@.radio
                    == old(self)@.radio,
            },
            res is Ok <==> 11 <= chan <= 26,
    {
        self.radio_state_machine.radio.set_channel(chan)
    }

    /// Registers the transmit client.
    pub fn set_transmit_client(&mut self)
        ensures
            old(self)@.radio.wf() ==> final(self)@.radio.wf(),
            final(self)@ == (MachineState {
                radio: RadioState { tx_client: true, ..old(self)@.radio },
                ..old(self)@
            }),
    {
        self.radio_state_machine.radio.set_transmit_client()
    }

    /// Registers the receive client and hands in the buffer for the next
    /// frame; see `Radio::set_receive_client`.
    pub fn set_receive_client(&mut self, receive_buffer: Vec<u8>) -> (displaced: Option<Vec<u8>>)
        ensures
            old(self)@.radio.wf() ==> final(self)@.radio.wf(),
            final(self)@ == (MachineState {
                radio: RadioState {
                    rx_client: true,
                    rx_buf: Some(receive_buffer@),
                    ..old(self)@.radio
                },
                ..old(self)@
            }),
            bytes_of(displaced) == old(self)@.radio.rx_buf,
    {
        self.radio_state_machine.radio.set_receive_client(receive_buffer)
    }

    /// Hands in the buffer for the next frame; see
    /// `Radio::set_receive_buffer`.
    pub fn set_receive_buffer(&mut self, receive_buffer: Vec<u8>) -> (displaced: Option<Vec<u8>>)
        ensures
            old(self)@.radio.wf() ==> final(self)@.radio.wf(),
            final(self)@ == (MachineState {
                radio: RadioState { rx_buf: Some(receive_buffer@), ..old(self)@.radio },
                ..old(self)@
            }),
            bytes_of(displaced) == old(self)@.radio.rx_buf,
    {
        self.radio_state_machine.radio.set_receive_buffer(receive_buffer)
    }

    /// Takes a frame for transmission; see `Radio::transmit`.
    pub fn transmit(&mut self, spi_buf: Vec<u8>, frame_len: usize) -> (res: Result<
        Vec<RadioOp>,
        (ErrorCode, Vec<u8>),
    >)
        requires
            old(self)@.radio.wf(),
        ensures
            final(self)@.state == old(self)@.state,
            final(self)@.radio.wf(),
            match old(self)@.radio.transmit_error(spi_buf@.len(), frame_len as nat) {
                Some(code) => (res matches Err((error, returned)) && error == code && returned@
                    == spi_buf@) && final(self)@.radio == old(self)@.radio,
                None => (res matches Ok(ops) && ops@ == final(self)@.radio.commit_ops())
                    && final(self)@.radio == old(self)@.radio.after_transmit(spi_buf@, frame_len),
            },
    {
        self.radio_state_machine.radio.transmit(spi_buf, frame_len)
    }
}

} // verus!
