use ieee802154_radio::error::ErrorCode;
use ieee802154_radio::machine::{Ieee802154Radio, RadioStateMachine};
use ieee802154_radio::ops::{Action, BufferSlot, InterruptStatus, RadioOp};
use ieee802154_radio::registers::{Event, Register, Task};
use ieee802154_radio::state::PeripheralState;

fn status(state: u32) -> InterruptStatus {
    InterruptStatus { ready: 0, framestart: 0, ccaidle: 0, ccabusy: 0, end: 0, state, crcstatus: 0 }
}

fn frequency(ops: &[RadioOp]) -> Option<u32> {
    ops.iter().rev().find_map(|op| match op {
        RadioOp::Write(Register::Frequency, word) => Some(*word),
        _ => None,
    })
}

#[test]
fn machine_starts_disabled() {
    let machine = RadioStateMachine::new();
    assert_eq!(machine.state(), PeripheralState::Disabled);
    let radio = Ieee802154Radio::new();
    assert_eq!(radio.state(), PeripheralState::Disabled);
    assert_eq!(radio.get_channel(), 26);
    assert_eq!(radio.get_tx_power(), 0);
    assert!(radio.is_on());
    assert!(!radio.busy());
}

#[test]
fn machine_follows_the_state_register() {
    let mut machine = RadioStateMachine::new();
    assert_eq!(
        machine.state_transition(3),
        vec![PeripheralState::RxRu, PeripheralState::RxIdle, PeripheralState::Rx]
    );
    assert_eq!(machine.state(), PeripheralState::Rx);
    assert_eq!(machine.state_transition(3), Vec::new());
    assert_eq!(machine.state_transition(7), Vec::new());
    assert_eq!(machine.state(), PeripheralState::Rx);
    assert_eq!(
        machine.state_transition(11),
        vec![
            PeripheralState::RxIdle,
            PeripheralState::TxRu,
            PeripheralState::TxIdle,
            PeripheralState::Tx,
        ]
    );
    assert_eq!(machine.state(), PeripheralState::Tx);
    assert_eq!(
        machine.state_transition(0),
        vec![PeripheralState::TxDisable, PeripheralState::Disabled]
    );
    assert_eq!(machine.state(), PeripheralState::Disabled);
}

#[test]
fn start_on_channel_15_reaches_rx() {
    let mut radio = Ieee802154Radio::new();
    radio.set_timer_ref();
    radio.set_transmit_client();
    assert_eq!(radio.set_receive_client(vec![0u8; 260]), None);
    assert_eq!(radio.set_channel(15), Ok(()));
    assert_eq!(radio.set_tx_power(0), Ok(()));
    let ops = radio.initialize().unwrap();
    assert!(ops.contains(&RadioOp::Write(Register::Mode, 15)));
    assert!(ops.contains(&RadioOp::Write(Register::Frequency, 25)));
    assert!(ops.contains(&RadioOp::Write(Register::TxPower, 0)));
    assert!(ops.contains(&RadioOp::Trigger(Task::RxEn)));
    assert!(radio.is_enabled(15));
    assert!(!radio.is_enabled(0));

    // READY in RXIDLE starts the receiver; the peripheral is then in RX.
    let out = radio.handle_interrupt(&InterruptStatus { ready: 1, ..status(2) });
    assert_eq!(out.actions[3], Action::Radio(RadioOp::Trigger(Task::Start)));
    assert_eq!(radio.state(), PeripheralState::Disabled);
    radio.state_transition(3);
    assert_eq!(radio.state(), PeripheralState::Rx);
}

#[test]
fn timer_is_attached_in_the_disabled_state_only() {
    let mut radio = Ieee802154Radio::new();
    radio.set_transmit_client();
    radio.state_transition(2);
    radio.set_timer_ref();
    radio.transmit(vec![0u8; 260], 10).unwrap();
    let busy = InterruptStatus { ccabusy: 1, ..status(2) };
    assert!(!radio.can_handle_interrupt(&busy));
    radio.state_transition(0);
    radio.set_timer_ref();
    assert!(radio.can_handle_interrupt(&busy));
}

#[test]
fn facade_forwards_the_configuration() {
    let mut radio = Ieee802154Radio::new();
    radio.set_address(0x0102);
    radio.set_address_long([8, 7, 6, 5, 4, 3, 2, 1]);
    radio.set_pan(0xbeef);
    assert_eq!(radio.get_address(), 0x0102);
    assert_eq!(radio.get_address_long(), [8, 7, 6, 5, 4, 3, 2, 1]);
    assert_eq!(radio.get_pan(), 0xbeef);
    assert_eq!(radio.set_channel(10), Err(ErrorCode::NOSUPPORT));
    assert_eq!(radio.get_channel(), 26);
    assert_eq!(radio.set_channel(11), Ok(()));
    assert_eq!(radio.get_channel(), 11);
    assert_eq!(radio.set_tx_power(1), Err(ErrorCode::NOSUPPORT));
    assert_eq!(radio.set_tx_power(-20), Ok(()));
    assert_eq!(radio.get_tx_power(), -20);
    assert!(!radio.can_listen());
    radio.set_receive_buffer(vec![0u8; 260]);
    assert!(radio.can_listen());
    let ops = radio.config_commit();
    assert_eq!(frequency(&ops), Some(5));
    assert!(ops.contains(&RadioOp::Write(Register::TxPower, 0xec)));
    assert_eq!(ops[0], RadioOp::Write(Register::Power, 0));
    radio.set_power_client();
    radio.set_config_client();
    assert_eq!(radio.stop().unwrap(), vec![RadioOp::Write(Register::Power, 0)]);
    assert_eq!(radio.reset().unwrap(), radio.start().unwrap());
}

#[test]
fn facade_transmits_in_any_state() {
    for word in [0u32, 1, 2, 3, 4, 9, 10, 11, 12] {
        let mut radio = Ieee802154Radio::new();
        radio.set_transmit_client();
        radio.set_receive_client(vec![0u8; 260]);
        radio.state_transition(word);
        let state = radio.state();
        let ops = radio.transmit(vec![0u8; 260], 10).unwrap();
        assert!(ops.contains(&RadioOp::PointDma { slot: BufferSlot::Tx, offset: 1 }));
        assert_eq!(radio.buffer(BufferSlot::Tx).unwrap()[1], 12);
        assert_eq!(radio.state(), state);
        let again = vec![0u8; 260];
        assert_eq!(radio.transmit(again.clone(), 10), Err((ErrorCode::BUSY, again)));
        let out = radio.handle_interrupt(&InterruptStatus { end: 1, ..status(11) });
        assert!(out.frame_complete);
        assert!(matches!(out.actions[2], Action::SendDone { acked: false, result: Ok(()), .. }));
        assert_eq!(out.actions[1], Action::Radio(RadioOp::ClearEvent(Event::End)));
        let cycle = radio.power_cycle();
        assert_eq!(cycle.last(), Some(&RadioOp::Write(Register::IntenSet, 0x0006_4009)));
        assert!(cycle.contains(&RadioOp::PointDma { slot: BufferSlot::Rx, offset: 1 }));
        assert!(!cycle.contains(&RadioOp::PointDma { slot: BufferSlot::Tx, offset: 1 }));
        assert_eq!(radio.alarm()[1], RadioOp::PointDma { slot: BufferSlot::Rx, offset: 1 });
    }
}
