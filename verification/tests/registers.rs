use ieee802154_radio::bitfield::Field;
use ieee802154_radio::config::BitField;
use ieee802154_radio::registers::{Event, Register, Task, EVENTS_BASE, RADIO_BASE, RADIO_WINDOW};
use ieee802154_radio::state::PeripheralState;
use ieee802154_radio::state::PeripheralState::{
    Disabled, Rx, RxDisable, RxIdle, RxRu, Tx, TxDisable, TxIdle, TxRu,
};

const ALL_STATES: [PeripheralState; 9] = [
    PeripheralState::Disabled,
    PeripheralState::RxRu,
    PeripheralState::RxIdle,
    PeripheralState::Rx,
    PeripheralState::RxDisable,
    PeripheralState::TxRu,
    PeripheralState::TxIdle,
    PeripheralState::Tx,
    PeripheralState::TxDisable,
];

#[test]
fn task_register_offsets() {
    assert_eq!(Task::TxEn.offset(), 0x000);
    assert_eq!(Task::RxEn.offset(), 0x004);
    assert_eq!(Task::Start.offset(), 0x008);
    assert_eq!(Task::Stop.offset(), 0x00c);
    assert_eq!(Task::Disable.offset(), 0x010);
    assert_eq!(Task::RssiStart.offset(), 0x014);
    assert_eq!(Task::RssiStop.offset(), 0x018);
    assert_eq!(Task::BcStart.offset(), 0x01c);
    assert_eq!(Task::BcStop.offset(), 0x020);
    assert_eq!(Task::CcaStart.offset(), 0x02c);
    assert_eq!(Task::CcaStop.offset(), 0x030);
}

#[test]
fn event_register_offsets_and_interrupt_bits() {
    let table: [(Event, usize, u32); 14] = [
        (Event::Ready, 0x100, 0),
        (Event::Address, 0x104, 1),
        (Event::Payload, 0x108, 2),
        (Event::End, 0x10c, 3),
        (Event::Disabled, 0x110, 4),
        (Event::DevMatch, 0x114, 5),
        (Event::DevMiss, 0x118, 6),
        (Event::RssiEnd, 0x11c, 7),
        (Event::BcMatch, 0x128, 10),
        (Event::CrcOk, 0x130, 12),
        (Event::CrcError, 0x134, 13),
        (Event::FrameStart, 0x138, 14),
        (Event::CcaIdle, 0x144, 17),
        (Event::CcaBusy, 0x148, 18),
    ];
    for (event, offset, bit) in table.iter() {
        assert_eq!(event.offset(), *offset);
        assert_eq!(event.interrupt_bit(), *bit);
        assert_eq!((event.offset() - EVENTS_BASE) / 4, *bit as usize);
    }
}

#[test]
fn configuration_register_offsets() {
    let table: [(Register, usize); 35] = [
        (Register::Shorts, 0x200),
        (Register::IntenSet, 0x304),
        (Register::IntenClr, 0x308),
        (Register::CrcStatus, 0x400),
        (Register::RxMatch, 0x408),
        (Register::RxCrc, 0x40c),
        (Register::Dai, 0x410),
        (Register::PacketPtr, 0x504),
        (Register::Frequency, 0x508),
        (Register::TxPower, 0x50c),
        (Register::Mode, 0x510),
        (Register::Pcnf0, 0x514),
        (Register::Pcnf1, 0x518),
        (Register::Base0, 0x51c),
        (Register::Base1, 0x520),
        (Register::Prefix0, 0x524),
        (Register::Prefix1, 0x528),
        (Register::TxAddress, 0x52c),
        (Register::RxAddresses, 0x530),
        (Register::CrcCnf, 0x534),
        (Register::CrcPoly, 0x538),
        (Register::CrcInit, 0x53c),
        (Register::Tifs, 0x544),
        (Register::RssiSample, 0x548),
        (Register::State, 0x550),
        (Register::DataWhiteIv, 0x554),
        (Register::Bcc, 0x560),
        (Register::Dab(0), 0x600),
        (Register::Dab(7), 0x61c),
        (Register::Dap(0), 0x620),
        (Register::Dap(7), 0x63c),
        (Register::DaCnf, 0x640),
        (Register::MhrMatchConf, 0x644),
        (Register::ModeCnf0, 0x650),
        (Register::CcaCtrl, 0x66c),
    ];
    for (register, offset) in table.iter() {
        assert!(register.is_valid());
        assert_eq!(register.offset(), *offset);
        assert!(register.offset() + 4 <= RADIO_WINDOW);
    }
    assert_eq!(Register::MhrMatchMas.offset(), 0x648);
    assert_eq!(Register::Power.offset(), 0xffc);
    assert_eq!(RADIO_BASE, 0x4000_1000);
}

#[test]
fn indexed_registers_come_in_groups_of_eight() {
    for n in 0u8..8 {
        assert!(Register::Dab(n).is_valid());
        assert!(Register::Dap(n).is_valid());
        assert_eq!(Register::Dab(n).offset(), 0x600 + 4 * n as usize);
        assert_eq!(Register::Dap(n).offset(), 0x620 + 4 * n as usize);
    }
    assert!(!Register::Dab(8).is_valid());
    assert!(!Register::Dap(8).is_valid());
    assert!(!Register::Dap(255).is_valid());
}

#[test]
fn field_places_and_reads_values() {
    let field = Field { shift: 8, width: 8 };
    assert_eq!(field.mask(), 0xff);
    assert_eq!(field.val(0x14), 0x1400);
    assert_eq!(field.val(0x1ff), 0xff00);
    assert_eq!(field.read(0x0214_1400), 0x14);
    assert!(field.is_set(0x0000_0100));
    assert!(!field.is_set(0xffff_00ff));
    assert!(field.matches_all(0x1234, 0x12));
    assert!(!field.matches_all(0x1234, 0x34));
    let whole = Field { shift: 0, width: 32 };
    assert_eq!(whole.mask(), 0xffff_ffff);
    assert_eq!(whole.val(0xdead_beef), 0xdead_beef);
    let top = Field { shift: 31, width: 1 };
    assert_eq!(top.val(1), 0x8000_0000);
    assert_eq!(top.read(0x8000_0000), 1);
}

#[test]
fn field_catalogue_matches_the_register_map() {
    assert_eq!(BitField::ModeMode.field(), Field { shift: 0, width: 4 });
    assert_eq!(BitField::ModeMode.register(), Register::Mode);
    assert_eq!(BitField::Pcnf0PLen.field(), Field { shift: 24, width: 2 });
    assert_eq!(BitField::Pcnf0CrcInc.field(), Field { shift: 26, width: 1 });
    assert_eq!(BitField::Pcnf0CrcInc.register(), Register::Pcnf0);
    assert_eq!(BitField::FrequencyFrequency.field(), Field { shift: 0, width: 7 });
    assert_eq!(BitField::FrequencyMap.field(), Field { shift: 8, width: 1 });
    assert_eq!(BitField::CcaCtrlCcaCorrCnt.field(), Field { shift: 24, width: 8 });
    assert_eq!(BitField::CcaCtrlCcaCorrCnt.register(), Register::CcaCtrl);
    assert_eq!(BitField::StateState.field(), Field { shift: 0, width: 4 });
    assert_eq!(BitField::ShortsDisabledRssiStop.field(), Field { shift: 8, width: 1 });
    assert_eq!(BitField::CrcCnfSkipAddr.field(), Field { shift: 8, width: 2 });
}

#[test]
fn state_words() {
    let words: [u32; 9] = [0, 1, 2, 3, 4, 9, 10, 11, 12];
    for (state, word) in ALL_STATES.iter().zip(words.iter()) {
        assert_eq!(state.as_register(), *word);
        assert_eq!(PeripheralState::from_register(*word), Some(*state));
    }
    for word in [5u32, 6, 7, 8, 13, 14, 15, 16, 0xffff_ffff] {
        assert_eq!(PeripheralState::from_register(word), None);
    }
}

#[test]
fn state_families() {
    for state in ALL_STATES.iter() {
        let word = state.as_register();
        assert_eq!(state.is_tx_state(), (9..=12).contains(&word));
        assert_eq!(state.is_rx_state(), (1..=4).contains(&word));
    }
    assert!(!PeripheralState::Disabled.is_tx_state());
    assert!(!PeripheralState::Disabled.is_rx_state());
}

#[test]
fn state_transition_adopts_the_observed_state() {
    for from in ALL_STATES.iter() {
        for to in ALL_STATES.iter() {
            assert_eq!(from.state_transition(to.as_register()), *to);
        }
        assert_eq!(from.state_transition(5), *from);
        assert_eq!(from.state_transition(0xffff_ffff), *from);
    }
}

#[test]
fn state_diagram_edges() {
    let edges: [(PeripheralState, PeripheralState); 20] = [
        (PeripheralState::RxDisable, PeripheralState::Disabled),
        (PeripheralState::TxDisable, PeripheralState::Disabled),
        (PeripheralState::TxRu, PeripheralState::TxDisable),
        (PeripheralState::TxIdle, PeripheralState::TxDisable),
        (PeripheralState::Tx, PeripheralState::TxDisable),
        (PeripheralState::RxRu, PeripheralState::RxDisable),
        (PeripheralState::RxIdle, PeripheralState::RxDisable),
        (PeripheralState::Rx, PeripheralState::RxDisable),
        (PeripheralState::Disabled, PeripheralState::TxRu),
        (PeripheralState::TxIdle, PeripheralState::TxRu),
        (PeripheralState::RxIdle, PeripheralState::TxRu),
        (PeripheralState::Disabled, PeripheralState::RxRu),
        (PeripheralState::TxIdle, PeripheralState::RxRu),
        (PeripheralState::RxIdle, PeripheralState::RxRu),
        (PeripheralState::TxRu, PeripheralState::TxIdle),
        (PeripheralState::Tx, PeripheralState::TxIdle),
        (PeripheralState::RxRu, PeripheralState::RxIdle),
        (PeripheralState::Rx, PeripheralState::RxIdle),
        (PeripheralState::TxIdle, PeripheralState::Tx),
        (PeripheralState::RxIdle, PeripheralState::Rx),
    ];
    for from in ALL_STATES.iter() {
        for to in ALL_STATES.iter() {
            assert_eq!(from.can_step_to(*to), edges.contains(&(*from, *to)));
        }
    }
}

#[test]
fn routes_follow_the_state_diagram() {
    for from in ALL_STATES.iter() {
        for to in ALL_STATES.iter() {
            let route = from.route_to(*to);
            assert!(route.len() <= 5);
            if from == to {
                assert!(route.is_empty());
                continue;
            }
            assert_eq!(route.last(), Some(to));
            let mut at = *from;
            for next in route.iter() {
                assert!(at.can_step_to(*next));
                assert_eq!(at.hop_towards(*to), *next);
                at = *next;
            }
        }
    }
}

#[test]
fn routes_between_the_two_sides() {
    assert_eq!(Disabled.route_to(Tx), vec![TxRu, TxIdle, Tx]);
    assert_eq!(Disabled.route_to(Rx), vec![RxRu, RxIdle, Rx]);
    assert_eq!(Disabled.route_to(TxDisable), vec![TxRu, TxDisable]);
    assert_eq!(RxRu.route_to(Tx), vec![RxDisable, Disabled, TxRu, TxIdle, Tx]);
    assert_eq!(RxRu.route_to(TxRu), vec![RxDisable, Disabled, TxRu]);
    assert_eq!(RxIdle.route_to(TxRu), vec![TxRu]);
    assert_eq!(RxIdle.route_to(Tx), vec![TxRu, TxIdle, Tx]);
    assert_eq!(Rx.route_to(TxDisable), vec![RxIdle, TxRu, TxDisable]);
    assert_eq!(Rx.route_to(RxRu), vec![RxIdle, RxRu]);
    assert_eq!(Rx.route_to(Disabled), vec![RxDisable, Disabled]);
    assert_eq!(TxRu.route_to(Rx), vec![TxIdle, RxRu, RxIdle, Rx]);
    assert_eq!(TxRu.route_to(Disabled), vec![TxDisable, Disabled]);
    assert_eq!(TxIdle.route_to(RxDisable), vec![RxRu, RxDisable]);
    assert_eq!(Tx.route_to(TxRu), vec![TxIdle, TxRu]);
    assert_eq!(Tx.route_to(Rx), vec![TxIdle, RxRu, RxIdle, Rx]);
    assert_eq!(RxDisable.route_to(Rx), vec![Disabled, RxRu, RxIdle, Rx]);
    assert_eq!(TxDisable.route_to(RxDisable), vec![Disabled, RxRu, RxDisable]);
    assert_eq!(TxDisable.route_to(Tx), vec![Disabled, TxRu, TxIdle, Tx]);
}
