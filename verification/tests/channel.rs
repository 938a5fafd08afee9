use ieee802154_radio::channel::RadioChannel;
use ieee802154_radio::config::{
    ccactrl_word, crccnf_word, driver_interrupts, frequency_word, mode_is_ieee802154, mode_word,
    modecnf0_word, pcnf0_word, pcnf1_word, rxaddresses_word, txaddress_word, txpower_word,
    BitField,
};
use ieee802154_radio::nonce::{backoff_microseconds, next_nonce};
use ieee802154_radio::power::TxPower;
use std::convert::TryFrom;

const ALL_CHANNELS: [RadioChannel; 16] = [
    RadioChannel::DataChannel11,
    RadioChannel::DataChannel12,
    RadioChannel::DataChannel13,
    RadioChannel::DataChannel14,
    RadioChannel::DataChannel15,
    RadioChannel::DataChannel16,
    RadioChannel::DataChannel17,
    RadioChannel::DataChannel18,
    RadioChannel::DataChannel19,
    RadioChannel::DataChannel20,
    RadioChannel::DataChannel21,
    RadioChannel::DataChannel22,
    RadioChannel::DataChannel23,
    RadioChannel::DataChannel24,
    RadioChannel::DataChannel25,
    RadioChannel::DataChannel26,
];

#[test]
fn channel_indices_run_from_11_to_26() {
    for (position, channel) in ALL_CHANNELS.iter().enumerate() {
        assert_eq!(channel.get_channel_index() as usize, 11 + position);
    }
}

#[test]
fn channel_try_from_accepts_the_band() {
    for k in 11u8..=26 {
        let channel = RadioChannel::try_from(k).unwrap();
        assert_eq!(channel.get_channel_index(), k);
        assert_eq!(channel, ALL_CHANNELS[(k - 11) as usize]);
    }
}

#[test]
fn channel_try_from_rejects_everything_else() {
    for k in 0u8..=255 {
        if !(11..=26).contains(&k) {
            assert_eq!(RadioChannel::try_from(k), Err(()));
        }
    }
}

#[test]
fn channel_frequency_is_five_mhz_per_channel() {
    for k in 11u8..=26 {
        let channel = RadioChannel::try_from(k).unwrap();
        let expected = 5 * (k as u32 - 11) + 5;
        assert_eq!(channel.frequency(), expected);
        assert_eq!(frequency_word(channel), expected);
        assert_eq!(channel.frequency(), k as u32 * 5 - 50);
    }
    assert_eq!(RadioChannel::DataChannel11.frequency(), 5);
    assert_eq!(RadioChannel::DataChannel15.frequency(), 25);
    assert_eq!(RadioChannel::DataChannel26.frequency(), 80);
}

#[test]
fn tx_power_levels_and_register_bytes() {
    let table: [(TxPower, i8, u32); 9] = [
        (TxPower::Positive4dBM, 4, 0x04),
        (TxPower::Positive3dBM, 3, 0x03),
        (TxPower::ZerodBm, 0, 0x00),
        (TxPower::Negative4dBm, -4, 0xfc),
        (TxPower::Negative8dBm, -8, 0xf8),
        (TxPower::Negative12dBm, -12, 0xf4),
        (TxPower::Negative16dBm, -16, 0xf0),
        (TxPower::Negative20dBm, -20, 0xec),
        (TxPower::Negative40dBm, -40, 0xd8),
    ];
    for (power, dbm, code) in table.iter() {
        assert_eq!(power.as_dbm(), *dbm);
        assert_eq!(power.register_value(), *code);
        assert_eq!(txpower_word(*power), *code);
        assert_eq!(TxPower::from_dbm(*dbm), Ok(*power));
        assert_eq!(TxPower::try_from(*code as u8), Ok(*power));
        assert_eq!(*dbm as u8 as u32, *code);
    }
}

#[test]
fn tx_power_rejects_other_levels() {
    let supported: [i8; 9] = [4, 3, 0, -4, -8, -12, -16, -20, -40];
    for dbm in i8::MIN..=i8::MAX {
        if !supported.contains(&dbm) {
            assert_eq!(TxPower::from_dbm(dbm), Err(()));
            assert_eq!(TxPower::try_from(dbm as u8), Err(()));
        }
    }
}

#[test]
fn configuration_words() {
    assert_eq!(mode_word(), 15);
    assert_eq!(pcnf0_word(), 0x0600_0008);
    assert_eq!(pcnf1_word(), 255);
    assert_eq!(crccnf_word(), 0x0202);
    assert_eq!(modecnf0_word(), 0x0201);
    assert_eq!(ccactrl_word(), 0x0214_1400);
    assert_eq!(txaddress_word(), 0);
    assert_eq!(rxaddresses_word(), 1);
    assert_eq!(driver_interrupts(), 0x0006_4009);
}

#[test]
fn configuration_words_hold_their_fields() {
    let pcnf0 = pcnf0_word();
    assert_eq!(BitField::Pcnf0LfLen.field().read(pcnf0), 8);
    assert_eq!(BitField::Pcnf0PLen.field().read(pcnf0), 2);
    assert_eq!(BitField::Pcnf0CrcInc.field().read(pcnf0), 1);
    assert_eq!(BitField::Pcnf0S0Len.field().read(pcnf0), 0);
    assert_eq!(BitField::Pcnf0S1Len.field().read(pcnf0), 0);
    assert_eq!(BitField::Pcnf1MaxLen.field().read(pcnf1_word()), 255);
    assert_eq!(BitField::CrcCnfLen.field().read(crccnf_word()), 2);
    assert_eq!(BitField::CrcCnfSkipAddr.field().read(crccnf_word()), 2);
    assert_eq!(BitField::ModeCnf0Ru.field().read(modecnf0_word()), 1);
    assert_eq!(BitField::ModeCnf0Dtx.field().read(modecnf0_word()), 2);
    let cca = ccactrl_word();
    assert_eq!(BitField::CcaCtrlCcaMode.field().read(cca), 0);
    assert_eq!(BitField::CcaCtrlCcaEdThresh.field().read(cca), 0x14);
    assert_eq!(BitField::CcaCtrlCcaCorrThresh.field().read(cca), 0x14);
    assert_eq!(BitField::CcaCtrlCcaCorrCnt.field().read(cca), 0x02);
}

#[test]
fn mode_word_is_recognised() {
    assert!(mode_is_ieee802154(15));
    assert!(mode_is_ieee802154(0xffff_fff0 | 15));
    assert!(!mode_is_ieee802154(0));
    assert!(!mode_is_ieee802154(3));
    assert!(!mode_is_ieee802154(14));
}

#[test]
fn nonce_first_three_outputs() {
    let first = next_nonce(0xDEAD_BEEF);
    let second = next_nonce(first);
    let third = next_nonce(second);
    assert_eq!(first, 0x477d_20b7);
    assert_eq!(second, 0x8e1d_9142);
    assert_eq!(third, 0xba8c_2458);
}

#[test]
fn nonce_is_a_function_of_the_seed() {
    let mut a: u32 = 12345;
    let mut b: u32 = 12345;
    for _ in 0..100 {
        a = next_nonce(a);
        b = next_nonce(b);
        assert_eq!(a, b);
    }
    let x: u32 = 0x8000_0001;
    let mut expected = x ^ (x << 13);
    expected ^= expected >> 17;
    expected ^= expected << 5;
    assert_eq!(next_nonce(x), expected);
}

#[test]
fn backoff_delay_is_low_bits_times_period() {
    assert_eq!(backoff_microseconds(0x477d_20b7, 4), 7 * 320);
    assert_eq!(backoff_microseconds(0x8e1d_9142, 5), 2 * 320);
    assert_eq!(backoff_microseconds(0xba8c_2458, 5), 24 * 320);
    assert_eq!(backoff_microseconds(0xffff_ffff, 3), 7 * 320);
    assert_eq!(backoff_microseconds(0xffff_ffff, 5), 31 * 320);
    assert_eq!(backoff_microseconds(0xffff_ffff, 0), 0);
    assert_eq!(backoff_microseconds(0, 5), 0);
}
