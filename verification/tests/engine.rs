use ieee802154_radio::constants::{
    RADIO_STATE_DISABLE, RADIO_STATE_RX, RADIO_STATE_RXIDLE, RADIO_STATE_TX, RADIO_STATE_TXIDLE,
};
use ieee802154_radio::error::ErrorCode;
use ieee802154_radio::ops::{is_latched, Action, BufferSlot, InterruptStatus, RadioOp};
use ieee802154_radio::radio::{is_rx_family, is_tx_family, Radio};
use ieee802154_radio::registers::{Event, Register, Task};

const MASK: RadioOp = RadioOp::Write(Register::IntenClr, 0xffff_ffff);
const UNMASK: RadioOp = RadioOp::Write(Register::IntenSet, 0x0006_4009);

fn quiet() -> InterruptStatus {
    InterruptStatus {
        ready: 0,
        framestart: 0,
        ccaidle: 0,
        ccabusy: 0,
        end: 0,
        state: RADIO_STATE_DISABLE,
        crcstatus: 0,
    }
}

fn ready_in(state: u32) -> InterruptStatus {
    InterruptStatus { ready: 1, state, ..quiet() }
}

fn busy() -> InterruptStatus {
    InterruptStatus { ccabusy: 1, state: RADIO_STATE_RXIDLE, ..quiet() }
}

fn end_in(state: u32, crcstatus: u32) -> InterruptStatus {
    InterruptStatus { end: 1, state, crcstatus, ..quiet() }
}

fn enter_rx(slot: BufferSlot) -> Vec<RadioOp> {
    vec![
        RadioOp::ClearEvent(Event::Ready),
        RadioOp::PointDma { slot, offset: 1 },
        RadioOp::Trigger(Task::RxEn),
        UNMASK,
    ]
}

fn initialize(slot: BufferSlot, power: u32, frequency: u32) -> Vec<RadioOp> {
    let mut ops = vec![
        RadioOp::Write(Register::Power, 0),
        RadioOp::Write(Register::Power, 1),
        RadioOp::ClearEvent(Event::Disabled),
        RadioOp::Trigger(Task::Disable),
        RadioOp::AwaitEvent(Event::Disabled),
        RadioOp::Write(Register::Mode, 15),
        RadioOp::Write(Register::Pcnf0, 0x0600_0008),
        RadioOp::Write(Register::Pcnf1, 255),
        RadioOp::Write(Register::CrcCnf, 0x0202),
        RadioOp::Write(Register::CrcInit, 0),
        RadioOp::Write(Register::CrcPoly, 0x11021),
        RadioOp::Write(Register::ModeCnf0, 0x0201),
        RadioOp::Write(Register::CcaCtrl, 0x0214_1400),
        RadioOp::Write(Register::TxPower, power),
        RadioOp::Write(Register::Frequency, frequency),
        RadioOp::Write(Register::TxAddress, 0),
        RadioOp::Write(Register::RxAddresses, 1),
    ];
    ops.extend(enter_rx(slot));
    ops
}

fn commit(slot: BufferSlot, power: u32, frequency: u32) -> Vec<RadioOp> {
    let mut ops = vec![RadioOp::Write(Register::Power, 0)];
    ops.extend(initialize(slot, power, frequency));
    ops
}

/// The word that a list of operations leaves in a register.
fn written(ops: &[RadioOp], register: Register) -> Option<u32> {
    let mut word = None;
    for op in ops {
        if let RadioOp::Write(target, value) = op {
            if *target == register {
                word = Some(*value);
            }
        }
    }
    word
}

fn as_actions(ops: Vec<RadioOp>) -> Vec<Action> {
    ops.into_iter().map(Action::Radio).collect()
}

fn frame_buffer(len: usize) -> Vec<u8> {
    (0..len).map(|i| (i % 251) as u8).collect()
}

/// An engine with both clients, an alarm and a receive buffer.
fn engine() -> Radio {
    let mut radio = Radio::new();
    radio.set_timer_ref();
    radio.set_transmit_client();
    assert_eq!(radio.set_receive_client(vec![0u8; 260]), None);
    radio
}

#[test]
fn fresh_engine_has_the_documented_defaults() {
    let radio = Radio::new();
    assert_eq!(radio.get_address(), 0);
    assert_eq!(radio.get_address_long(), [0u8; 8]);
    assert_eq!(radio.get_pan(), 0);
    assert_eq!(radio.get_channel(), 26);
    assert_eq!(radio.get_tx_power(), 0);
    assert!(radio.buffer(BufferSlot::Tx).is_none());
    assert!(radio.buffer(BufferSlot::Rx).is_none());
    assert!(!radio.can_listen());
    assert!(radio.is_on());
    assert!(!radio.busy());
    assert!(!radio.is_transmitting());
    assert_eq!(radio.backoff_attempts(), 0);
    assert_eq!(radio.backoff_exponent(), 3);
}

#[test]
fn startup_programs_channel_15_at_0_dbm() {
    let mut radio = engine();
    assert_eq!(radio.set_channel(15), Ok(()));
    assert_eq!(radio.set_tx_power(0), Ok(()));
    assert!(radio.can_listen());
    let ops = radio.startup().unwrap();
    assert_eq!(written(&ops, Register::Mode), Some(15));
    assert_eq!(written(&ops, Register::Frequency), Some(25));
    assert_eq!(written(&ops, Register::TxPower), Some(0));
    assert_eq!(ops, initialize(BufferSlot::Rx, 0, 25));
    assert_eq!(ops[ops.len() - 2], RadioOp::Trigger(Task::RxEn));
    assert!(radio.is_enabled(written(&ops, Register::Mode).unwrap()));
    assert_eq!(radio.initialize().unwrap(), ops);
}

#[test]
fn startup_is_idempotent() {
    let radio = engine();
    let first = radio.startup().unwrap();
    let second = radio.startup().unwrap();
    assert_eq!(first, second);
    assert_eq!(first, initialize(BufferSlot::Rx, 0, 80));
}

#[test]
fn power_operations() {
    let radio = engine();
    let on = vec![RadioOp::Write(Register::Power, 0), RadioOp::Write(Register::Power, 1)];
    assert_eq!(radio.reset().unwrap(), on);
    assert_eq!(radio.start().unwrap(), on);
    assert_eq!(radio.stop().unwrap(), vec![RadioOp::Write(Register::Power, 0)]);
    radio.set_power_client();
    radio.set_config_client();
}

#[test]
fn interrupt_mask_operations() {
    let radio = Radio::new();
    assert_eq!(radio.enable_interrupts(), UNMASK);
    assert_eq!(radio.disable_all_interrupts(), MASK);
    assert_eq!(radio.enable_interrupt(0x8), RadioOp::Write(Register::IntenSet, 0x8));
    assert_eq!(radio.clear_interrupt(0x4000), RadioOp::Write(Register::IntenClr, 0x4000));
}

#[test]
fn addresses_and_pan_are_stored() {
    let mut radio = Radio::new();
    radio.set_address(0xabcd);
    radio.set_address_long([1, 2, 3, 4, 5, 6, 7, 8]);
    radio.set_pan(0x1234);
    assert_eq!(radio.get_address(), 0xabcd);
    assert_eq!(radio.get_address_long(), [1, 2, 3, 4, 5, 6, 7, 8]);
    assert_eq!(radio.get_pan(), 0x1234);
    assert_eq!(radio.get_channel(), 26);
}

#[test]
fn set_channel_rejects_10_and_accepts_26() {
    let mut radio = engine();
    assert_eq!(radio.set_channel(20), Ok(()));
    assert_eq!(radio.set_channel(10), Err(ErrorCode::NOSUPPORT));
    assert_eq!(radio.get_channel(), 20);
    assert_eq!(radio.set_channel(27), Err(ErrorCode::NOSUPPORT));
    assert_eq!(radio.get_channel(), 20);
    assert_eq!(radio.set_channel(26), Ok(()));
    assert_eq!(radio.get_channel(), 26);
    let ops = radio.config_commit();
    assert_eq!(written(&ops, Register::Frequency), Some(80));
    assert_eq!(ops, commit(BufferSlot::Rx, 0, 80));
}

#[test]
fn set_channel_is_staged_until_commit() {
    let mut radio = engine();
    for k in 11u8..=26 {
        assert_eq!(radio.set_channel(k), Ok(()));
        assert_eq!(radio.get_channel(), k);
        let ops = radio.config_commit();
        assert_eq!(written(&ops, Register::Frequency), Some(5 * (k as u32 - 11) + 5));
    }
}

#[test]
fn set_tx_power_accepts_the_nine_levels() {
    let mut radio = engine();
    let levels: [(i8, u32); 9] = [
        (4, 0x04),
        (3, 0x03),
        (0, 0x00),
        (-4, 0xfc),
        (-8, 0xf8),
        (-12, 0xf4),
        (-16, 0xf0),
        (-20, 0xec),
        (-40, 0xd8),
    ];
    for (dbm, code) in levels.iter() {
        assert_eq!(radio.set_tx_power(*dbm), Ok(()));
        assert_eq!(radio.get_tx_power(), *dbm);
        assert_eq!(written(&radio.config_commit(), Register::TxPower), Some(*code));
    }
    assert_eq!(radio.set_tx_power(5), Err(ErrorCode::NOSUPPORT));
    assert_eq!(radio.set_tx_power(-1), Err(ErrorCode::NOSUPPORT));
    assert_eq!(radio.set_tx_power(-128), Err(ErrorCode::NOSUPPORT));
    assert_eq!(radio.get_tx_power(), -40);
}

#[test]
fn transmit_writes_the_phy_length_byte() {
    let mut radio = engine();
    let buf = frame_buffer(260);
    let ops = radio.transmit(buf.clone(), 10).unwrap();
    let held = radio.buffer(BufferSlot::Tx).unwrap();
    assert_eq!(held[1], 12);
    assert_eq!(held.len(), 260);
    assert_eq!(held[0], buf[0]);
    assert_eq!(held[2..], buf[2..]);
    assert_eq!(ops, commit(BufferSlot::Tx, 0, 80));
    assert!(radio.can_listen());
}

#[test]
fn transmit_then_send_done_ok() {
    let mut radio = engine();
    let mut expected = frame_buffer(260);
    radio.transmit(expected.clone(), 10).unwrap();
    expected[1] = 12;

    // The radio has ramped up in RX: assess the channel.
    let out = radio.handle_interrupt(&ready_in(RADIO_STATE_RXIDLE));
    assert!(!out.frame_complete);
    assert_eq!(
        out.actions,
        as_actions(vec![
            MASK,
            RadioOp::ClearEvent(Event::Ready),
            RadioOp::ClearEvent(Event::End),
            RadioOp::Trigger(Task::CcaStart),
            UNMASK,
        ])
    );

    // The channel is clear: enable the transmitter.
    let out = radio.handle_interrupt(&InterruptStatus {
        ccaidle: 1,
        state: RADIO_STATE_RXIDLE,
        ..quiet()
    });
    assert!(!out.frame_complete);
    assert_eq!(
        out.actions,
        as_actions(vec![
            MASK,
            RadioOp::ClearEvent(Event::CcaIdle),
            RadioOp::Trigger(Task::TxEn),
            UNMASK,
        ])
    );

    // The transmitter has ramped up: start sending.
    let out = radio.handle_interrupt(&ready_in(RADIO_STATE_TXIDLE));
    assert_eq!(
        out.actions,
        as_actions(vec![
            MASK,
            RadioOp::ClearEvent(Event::Ready),
            RadioOp::ClearEvent(Event::End),
            RadioOp::Trigger(Task::Start),
            UNMASK,
        ])
    );

    // The frame is out. The CRC status means nothing here.
    let status = end_in(RADIO_STATE_TX, 0);
    assert!(radio.can_handle_interrupt(&status));
    let out = radio.handle_interrupt(&status);
    assert!(out.frame_complete);
    assert_eq!(
        out.actions,
        vec![
            Action::Radio(MASK),
            Action::Radio(RadioOp::ClearEvent(Event::End)),
            Action::SendDone { buf: expected, acked: false, result: Ok(()) },
        ]
    );
    assert!(radio.buffer(BufferSlot::Tx).is_none());

    // Back to listening, on the receive buffer.
    let mut cycle = commit(BufferSlot::Rx, 0, 80);
    cycle.extend(enter_rx(BufferSlot::Rx));
    cycle.push(UNMASK);
    assert_eq!(radio.power_cycle(), cycle);
}

#[test]
fn send_done_ok_in_every_transmitter_state() {
    for state in [9u32, 10, 11, 12] {
        for crcstatus in [0u32, 1] {
            let mut radio = engine();
            radio.transmit(vec![0u8; 64], 20).unwrap();
            let out = radio.handle_interrupt(&end_in(state, crcstatus));
            assert!(out.frame_complete);
            match &out.actions[2] {
                Action::SendDone { buf, acked, result } => {
                    assert_eq!(buf[1], 22);
                    assert!(!*acked);
                    assert_eq!(*result, Ok(()));
                },
                other => panic!("unexpected action {:?}", other),
            }
        }
    }
}

#[test]
fn second_transmit_is_busy() {
    let mut radio = engine();
    assert!(radio.transmit(vec![0u8; 260], 10).is_ok());
    let second = vec![7u8; 100];
    assert_eq!(radio.transmit(second.clone(), 5), Err((ErrorCode::BUSY, second)));
    // Still busy after interrupts that hand nothing back.
    radio.handle_interrupt(&ready_in(RADIO_STATE_RXIDLE));
    radio.handle_interrupt(&busy());
    let third = vec![9u8; 50];
    assert_eq!(radio.transmit(third.clone(), 5), Err((ErrorCode::BUSY, third)));
    // Free again once the frame has come back.
    let out = radio.handle_interrupt(&end_in(RADIO_STATE_TXIDLE, 0));
    assert!(matches!(out.actions[2], Action::SendDone { .. }));
    assert!(radio.transmit(vec![0u8; 260], 10).is_ok());
}

#[test]
fn transmit_needs_room_for_the_crc() {
    let mut radio = engine();
    // PSDU_OFFSET + frame_len must stay below the buffer's length.
    let buf = vec![3u8; 12];
    assert_eq!(radio.transmit(buf.clone(), 10), Err((ErrorCode::SIZE, buf.clone())));
    assert_eq!(radio.transmit(buf.clone(), 11), Err((ErrorCode::SIZE, buf.clone())));
    assert_eq!(radio.transmit(buf.clone(), usize::MAX), Err((ErrorCode::SIZE, buf.clone())));
    assert_eq!(radio.transmit(Vec::new(), 0), Err((ErrorCode::SIZE, Vec::new())));
    assert_eq!(radio.transmit(vec![1u8, 2u8], 0), Err((ErrorCode::SIZE, vec![1u8, 2u8])));
    assert!(radio.buffer(BufferSlot::Tx).is_none());
    // Nothing was kept, so a frame that fits is taken.
    assert!(radio.transmit(buf, 9).is_ok());
    assert_eq!(radio.buffer(BufferSlot::Tx).unwrap()[1], 11);
}

#[test]
fn busy_is_checked_before_size() {
    let mut radio = engine();
    radio.transmit(vec![0u8; 260], 10).unwrap();
    let small = vec![0u8; 4];
    assert_eq!(radio.transmit(small.clone(), 100), Err((ErrorCode::BUSY, small)));
}

#[test]
fn phy_length_byte_wraps_in_a_long_buffer() {
    let mut radio = engine();
    radio.transmit(vec![0u8; 1000], 500).unwrap();
    assert_eq!(radio.buffer(BufferSlot::Tx).unwrap()[1], ((500 + 2) % 256) as u8);
}

#[test]
fn busy_channel_backs_off_four_times_then_fails() {
    let mut radio = engine();
    let mut expected = frame_buffer(260);
    radio.transmit(expected.clone(), 10).unwrap();
    expected[1] = 12;

    // The delays are the low bits of the first four nonces, under the
    // exponents 4, 5, 5 and 5.
    let delays: [u32; 4] = [7 * 320, 2 * 320, 24 * 320, 27 * 320];
    let exponents: [u8; 4] = [3, 4, 5, 5];
    for (attempt, delay) in delays.iter().enumerate() {
        radio.handle_interrupt(&ready_in(RADIO_STATE_RXIDLE));
        assert!(radio.is_transmitting());
        assert_eq!(radio.backoff_attempts() as usize, attempt);
        assert_eq!(radio.backoff_exponent(), exponents[attempt]);
        let status = busy();
        assert!(radio.can_handle_interrupt(&status));
        let out = radio.handle_interrupt(&status);
        assert!(!out.frame_complete);
        assert_eq!(
            out.actions,
            vec![
                Action::Radio(MASK),
                Action::Radio(RadioOp::ClearEvent(Event::CcaBusy)),
                Action::Radio(RadioOp::ClearEvent(Event::Ready)),
                Action::Radio(RadioOp::Trigger(Task::Disable)),
                Action::Radio(RadioOp::AwaitEvent(Event::Disabled)),
                Action::Radio(RadioOp::ClearEvent(Event::Disabled)),
                Action::SetAlarm { reference: 0, dt: *delay },
                Action::Radio(UNMASK),
                Action::Radio(UNMASK),
            ]
        );
        // The alarm fires: enter RX on the frame for the next assessment.
        assert_eq!(radio.alarm(), enter_rx(BufferSlot::Tx));
        assert!(radio.buffer(BufferSlot::Tx).is_some());
    }

    radio.handle_interrupt(&ready_in(RADIO_STATE_RXIDLE));
    assert_eq!(radio.backoff_attempts(), 4);
    assert_eq!(radio.backoff_exponent(), 5);
    let out = radio.handle_interrupt(&busy());
    assert!(!out.frame_complete);
    assert!(!radio.is_transmitting());
    assert_eq!(
        out.actions,
        vec![
            Action::Radio(MASK),
            Action::Radio(RadioOp::ClearEvent(Event::CcaBusy)),
            Action::Radio(RadioOp::ClearEvent(Event::Ready)),
            Action::Radio(RadioOp::Trigger(Task::Disable)),
            Action::Radio(RadioOp::AwaitEvent(Event::Disabled)),
            Action::Radio(RadioOp::ClearEvent(Event::Disabled)),
            Action::SendDone { buf: expected, acked: false, result: Err(ErrorCode::BUSY) },
            Action::Radio(UNMASK),
            Action::Radio(UNMASK),
        ]
    );
    assert!(radio.buffer(BufferSlot::Tx).is_none());
    assert_eq!(radio.alarm(), enter_rx(BufferSlot::Rx));
}

#[test]
fn a_new_transmission_starts_the_backoff_afresh() {
    let mut radio = engine();
    radio.transmit(vec![0u8; 260], 10).unwrap();
    for _ in 0..4 {
        radio.handle_interrupt(&busy());
    }
    radio.handle_interrupt(&busy());
    assert!(radio.buffer(BufferSlot::Tx).is_none());

    radio.transmit(vec![0u8; 260], 10).unwrap();
    assert_eq!(radio.backoff_attempts(), 0);
    assert_eq!(radio.backoff_exponent(), 3);
    // The fifth nonce, under exponent 4 again.
    let out = radio.handle_interrupt(&busy());
    assert_eq!(out.actions[6], Action::SetAlarm { reference: 0, dt: (0x680e_0348 & 15) * 320 });
}

#[test]
fn random_nonce_draws_the_fixed_sequence() {
    let mut radio = Radio::new();
    assert_eq!(radio.random_nonce(), 0x477d_20b7);
    assert_eq!(radio.random_nonce(), 0x8e1d_9142);
    assert_eq!(radio.random_nonce(), 0xba8c_2458);
    let mut other = Radio::new();
    other.set_channel(11).unwrap();
    assert_eq!(other.random_nonce(), 0x477d_20b7);
}

#[test]
fn receive_with_good_crc() {
    let mut radio = Radio::new();
    let mut buf = frame_buffer(260);
    buf[1] = 17;
    assert_eq!(radio.set_receive_client(buf.clone()), None);
    let status = end_in(RADIO_STATE_RX, 1);
    assert!(radio.can_handle_interrupt(&status));
    let out = radio.handle_interrupt(&status);
    assert!(out.frame_complete);
    assert_eq!(
        out.actions,
        vec![
            Action::Radio(MASK),
            Action::Radio(RadioOp::ClearEvent(Event::End)),
            Action::Receive { buf: buf.clone(), frame_len: 15, crc_ok: true, result: Ok(()) },
        ]
    );
    assert!(radio.buffer(BufferSlot::Rx).is_none());
    assert!(!radio.can_listen());
    // The client hands the buffer back, and the radio listens again.
    assert_eq!(radio.set_receive_buffer(buf), None);
    let mut cycle = commit(BufferSlot::Rx, 0, 80);
    cycle.extend(enter_rx(BufferSlot::Rx));
    cycle.push(UNMASK);
    assert_eq!(radio.power_cycle(), cycle);
}

#[test]
fn receive_with_bad_crc() {
    let mut radio = Radio::new();
    let mut buf = frame_buffer(260);
    buf[1] = 17;
    radio.set_receive_client(buf.clone());
    let out = radio.handle_interrupt(&end_in(RADIO_STATE_RXIDLE, 0));
    assert!(out.frame_complete);
    assert_eq!(
        out.actions[2],
        Action::Receive { buf, frame_len: 15, crc_ok: false, result: Err(ErrorCode::FAIL) }
    );
}

#[test]
fn receive_in_every_receiver_state() {
    for state in [1u32, 2, 3, 4] {
        let mut radio = Radio::new();
        let mut buf = vec![0u8; 130];
        buf[1] = 127;
        radio.set_receive_client(buf);
        let out = radio.handle_interrupt(&end_in(state, 1));
        match &out.actions[2] {
            Action::Receive { frame_len, crc_ok, result, .. } => {
                assert_eq!(*frame_len, 125);
                assert!(*crc_ok);
                assert_eq!(*result, Ok(()));
            },
            other => panic!("unexpected action {:?}", other),
        }
    }
}

#[test]
fn only_the_lowest_crc_status_bit_counts() {
    let mut radio = Radio::new();
    let mut buf = vec![0u8; 64];
    buf[1] = 2;
    radio.set_receive_client(buf);
    let out = radio.handle_interrupt(&end_in(RADIO_STATE_RX, 3));
    match &out.actions[2] {
        Action::Receive { frame_len, crc_ok, result, .. } => {
            assert_eq!(*frame_len, 0);
            assert!(*crc_ok);
            assert_eq!(*result, Ok(()));
        },
        other => panic!("unexpected action {:?}", other),
    }
    assert!(is_latched(1));
    assert!(is_latched(0xffff_ffff));
    assert!(!is_latched(0));
    assert!(!is_latched(2));
}

#[test]
fn end_in_the_disabled_state_notifies_nobody() {
    let mut radio = engine();
    let out = radio.handle_interrupt(&end_in(RADIO_STATE_DISABLE, 1));
    assert!(out.frame_complete);
    assert_eq!(out.actions, radio_actions_for_bare_end());
    assert!(radio.buffer(BufferSlot::Rx).is_some());
}

fn radio_actions_for_bare_end() -> Vec<Action> {
    vec![Action::Radio(MASK), Action::Radio(RadioOp::ClearEvent(Event::End))]
}

#[test]
fn ready_acknowledges_end() {
    let mut radio = engine();
    let status =
        InterruptStatus { ready: 1, end: 1, state: RADIO_STATE_RX, crcstatus: 1, ..quiet() };
    let out = radio.handle_interrupt(&status);
    assert!(!out.frame_complete);
    assert_eq!(
        out.actions,
        as_actions(vec![
            MASK,
            RadioOp::ClearEvent(Event::Ready),
            RadioOp::ClearEvent(Event::End),
            RadioOp::Trigger(Task::Start),
            UNMASK,
        ])
    );
    assert!(radio.buffer(BufferSlot::Rx).is_some());
}

#[test]
fn ready_starts_reception_when_nothing_is_sent() {
    let mut radio = engine();
    let out = radio.handle_interrupt(&ready_in(RADIO_STATE_RXIDLE));
    assert_eq!(out.actions[3], Action::Radio(RadioOp::Trigger(Task::Start)));
}

#[test]
fn framestart_is_only_acknowledged() {
    let mut radio = engine();
    let out = radio.handle_interrupt(&InterruptStatus { framestart: 1, ..quiet() });
    assert!(!out.frame_complete);
    assert_eq!(out.actions, as_actions(vec![MASK, RadioOp::ClearEvent(Event::FrameStart), UNMASK]));
}

#[test]
fn an_interrupt_without_events_only_masks_and_unmasks() {
    let mut radio = Radio::new();
    let out = radio.handle_interrupt(&quiet());
    assert!(!out.frame_complete);
    assert_eq!(out.actions, as_actions(vec![MASK, UNMASK]));
}

#[test]
fn events_are_handled_in_order() {
    let mut radio = engine();
    radio.transmit(vec![0u8; 260], 10).unwrap();
    let status = InterruptStatus {
        ready: 1,
        framestart: 1,
        ccaidle: 1,
        ccabusy: 0,
        end: 0,
        state: RADIO_STATE_RXIDLE,
        crcstatus: 0,
    };
    let out = radio.handle_interrupt(&status);
    assert_eq!(
        out.actions,
        as_actions(vec![
            MASK,
            RadioOp::ClearEvent(Event::Ready),
            RadioOp::ClearEvent(Event::End),
            RadioOp::Trigger(Task::CcaStart),
            RadioOp::ClearEvent(Event::FrameStart),
            RadioOp::ClearEvent(Event::CcaIdle),
            RadioOp::Trigger(Task::TxEn),
            UNMASK,
        ])
    );
}

#[test]
fn without_a_transmit_client_the_frame_stays() {
    let mut radio = Radio::new();
    radio.set_timer_ref();
    radio.set_receive_client(vec![0u8; 260]);
    radio.transmit(vec![0u8; 260], 10).unwrap();
    let out = radio.handle_interrupt(&end_in(RADIO_STATE_TX, 0));
    assert!(out.frame_complete);
    assert_eq!(out.actions, radio_actions_for_bare_end());
    assert!(radio.buffer(BufferSlot::Tx).is_some());
    let next = vec![0u8; 260];
    assert_eq!(radio.transmit(next.clone(), 10), Err((ErrorCode::BUSY, next)));
    // The radio listens on the receive buffer again.
    assert_eq!(radio.alarm(), enter_rx(BufferSlot::Rx));
}

#[test]
fn without_a_receive_client_the_buffer_stays() {
    let mut radio = Radio::new();
    let mut buf = vec![0u8; 260];
    buf[1] = 17;
    assert_eq!(radio.set_receive_buffer(buf.clone()), None);
    let out = radio.handle_interrupt(&end_in(RADIO_STATE_RX, 1));
    assert!(out.frame_complete);
    assert_eq!(out.actions, radio_actions_for_bare_end());
    assert_eq!(radio.buffer(BufferSlot::Rx), Some(&buf));
}

#[test]
fn a_displaced_receive_buffer_comes_back() {
    let mut radio = Radio::new();
    let first = vec![1u8; 260];
    let second = vec![2u8; 260];
    let third = vec![3u8; 260];
    assert_eq!(radio.set_receive_buffer(first.clone()), None);
    assert_eq!(radio.set_receive_buffer(second.clone()), Some(first));
    assert_eq!(radio.set_receive_client(third.clone()), Some(second));
    assert_eq!(radio.buffer(BufferSlot::Rx), Some(&third));
}

#[test]
fn buffers_are_conserved_over_a_transmission() {
    let mut radio = engine();
    let rx = radio.buffer(BufferSlot::Rx).unwrap().clone();
    let mut tx = frame_buffer(128);
    radio.transmit(tx.clone(), 30).unwrap();
    tx[1] = 32;
    let statuses = [
        ready_in(RADIO_STATE_RXIDLE),
        busy(),
        ready_in(RADIO_STATE_RXIDLE),
        InterruptStatus { ccaidle: 1, ..quiet() },
        ready_in(RADIO_STATE_TXIDLE),
        end_in(RADIO_STATE_TXIDLE, 0),
    ];
    let mut sent_back: Vec<Vec<u8>> = Vec::new();
    let mut delivered: Vec<Vec<u8>> = Vec::new();
    for status in statuses.iter() {
        for action in radio.handle_interrupt(status).actions {
            match action {
                Action::SendDone { buf, .. } => sent_back.push(buf),
                Action::Receive { buf, .. } => delivered.push(buf),
                _ => {},
            }
        }
    }
    assert_eq!(sent_back, vec![tx]);
    assert!(delivered.is_empty());
    assert!(radio.buffer(BufferSlot::Tx).is_none());
    assert_eq!(radio.buffer(BufferSlot::Rx), Some(&rx));
}

#[test]
fn the_handler_says_what_it_cannot_work_on() {
    // A backoff needs an alarm.
    let mut radio = Radio::new();
    radio.set_transmit_client();
    radio.transmit(vec![0u8; 260], 10).unwrap();
    assert!(!radio.can_handle_interrupt(&busy()));
    radio.set_timer_ref();
    assert!(radio.can_handle_interrupt(&busy()));

    // A receive client is owed a buffer that names a frame.
    let mut radio = Radio::new();
    radio.set_receive_client(vec![0u8; 1]);
    assert!(!radio.can_handle_interrupt(&end_in(RADIO_STATE_RX, 1)));
    radio.set_receive_buffer(vec![0u8, 1u8, 0u8]);
    assert!(!radio.can_handle_interrupt(&end_in(RADIO_STATE_RX, 1)));
    radio.set_receive_buffer(vec![0u8, 2u8, 0u8]);
    assert!(radio.can_handle_interrupt(&end_in(RADIO_STATE_RX, 1)));
    assert!(radio.can_handle_interrupt(&end_in(RADIO_STATE_DISABLE, 1)));

    // A transmit client is owed a frame.
    let mut radio = engine();
    assert!(!radio.can_handle_interrupt(&end_in(RADIO_STATE_TX, 0)));
    assert!(radio.can_handle_interrupt(&ready_in(RADIO_STATE_TX)));
    radio.transmit(vec![0u8; 260], 10).unwrap();
    assert!(radio.can_handle_interrupt(&end_in(RADIO_STATE_TX, 0)));
}

#[test]
fn state_words_fall_into_two_families() {
    for word in 0u32..32 {
        assert_eq!(is_tx_family(word), (9..=12).contains(&word));
        assert_eq!(is_rx_family(word), (1..=4).contains(&word));
    }
    assert!(is_tx_family(RADIO_STATE_TXIDLE));
    assert!(is_rx_family(RADIO_STATE_RX));
    assert!(!is_tx_family(RADIO_STATE_DISABLE));
}
