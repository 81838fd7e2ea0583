use codeplug::settings::default_settings::default_settings;
use codeplug::settings::{
    BatterySave, BeepTone, ScanMode, Settings, SideKeyFunction, Squelch, TimeOutTimer,
    VoiceAnnunciation, VoxDelayTimes, VoxLevel,
};

const BLOCK: [u8; 11] = [0x09, 0x05, 0x32, 0x04, 0x15, 1, 2, 3, 4, 5, 6];

#[test]
fn reads_settings_block() {
    let settings = Settings::try_from(&BLOCK[..]).unwrap();
    assert_eq!(settings.beep_tone, BeepTone::On);
    assert_eq!(settings.battery_save, BatterySave::Off);
    assert_eq!(settings.voice_annunciation, VoiceAnnunciation::English);
    assert_eq!(settings.scan_mode, ScanMode::Carrier);
    assert_eq!(settings.squelch, Squelch::Level5);
    assert_eq!(settings.time_out_timer, TimeOutTimer::OneMinute);
    assert_eq!(settings.vox_delay_time, VoxDelayTimes::TwoSeconds);
    assert_eq!(settings.vox, VoxLevel::Level4);
    assert_eq!(settings.side_key_1_long, SideKeyFunction::ChannelBroadcast);
    assert_eq!(settings.side_key_2_long, SideKeyFunction::EmergencyAlarm);
    assert_eq!(
        [
            settings._unknown5,
            settings._unknown6,
            settings._unknown7,
            settings._unknown8,
            settings._unknown9,
            settings._unknown10
        ],
        [1, 2, 3, 4, 5, 6]
    );
    assert_eq!(settings.data, BLOCK.to_vec());
}

#[test]
fn reads_unknown_codes() {
    let block = [0x0c, 0x0a, 0xff, 0xfe, 0x7f, 0, 0, 0, 0, 0, 0, 0xaa];
    let settings = Settings::try_from(&block[..]).unwrap();
    assert_eq!(settings.voice_annunciation, VoiceAnnunciation::Unknown(3));
    assert_eq!(settings.squelch, Squelch::Unknown(10));
    assert_eq!(settings.time_out_timer, TimeOutTimer::Unknown(15));
    assert_eq!(settings.vox_delay_time, VoxDelayTimes::Unknown(15));
    assert_eq!(settings.vox, VoxLevel::Unknown(0xfe));
    assert_eq!(settings.side_key_1_long, SideKeyFunction::Unknown(7));
    assert_eq!(settings.side_key_2_long, SideKeyFunction::Unknown(15));
    assert_eq!(settings.data, block.to_vec());
}

#[test]
fn block_round_trips_when_high_nibble_of_byte_zero_is_clear() {
    let settings = Settings::try_from(&BLOCK[..]).unwrap();
    assert_eq!(settings.into_bytes(), BLOCK.to_vec());
}

#[test]
fn scan_mode_is_read_from_bit_six_and_written_to_bit_four() {
    let mut block = BLOCK;
    block[0] = 0x40 | 0x20 | 0x01;
    let settings = Settings::try_from(&block[..]).unwrap();
    assert_eq!(settings.scan_mode, ScanMode::Time);
    let written = settings.into_bytes();
    assert_eq!(written[0], 0x11);
    assert_eq!(written[1..], block[1..]);
    let read_again = Settings::try_from(&written[..]).unwrap();
    assert_eq!(read_again.scan_mode, ScanMode::Carrier);
}

#[test]
fn writes_settings() {
    let settings = default_settings();
    assert_eq!(settings.into_bytes(), vec![0x0b, 3, 0, 0, 0, 0, 0, 0, 255, 255, 255]);
}

#[test]
fn writes_codes_cut_to_their_fields() {
    let mut settings = Settings::default();
    settings.beep_tone = BeepTone::Unknown(0xfe);
    settings.battery_save = BatterySave::Unknown(3);
    settings.time_out_timer = TimeOutTimer::Unknown(0x21);
    settings.side_key_1_long = SideKeyFunction::Unknown(0x12);
    assert_eq!(settings.into_bytes(), vec![0x02, 3, 0x01, 0, 0x20, 0, 0, 0, 0, 0, 0]);
}

#[test]
fn default_settings_values() {
    let settings = default_settings();
    assert_eq!(settings.squelch, Squelch::Level3);
    assert_eq!(settings.voice_annunciation, VoiceAnnunciation::English);
    assert_eq!(settings.battery_save, BatterySave::On);
    assert_eq!(settings.beep_tone, BeepTone::On);
    assert_eq!(settings._unknown8, 255);
    assert!(settings.data.is_empty());
}

#[test]
fn default_trait_values() {
    let settings = Settings::default();
    assert_eq!(settings.squelch, Squelch::Level3);
    assert_eq!(settings.voice_annunciation, VoiceAnnunciation::Off);
    assert_eq!(settings.battery_save, BatterySave::On);
    assert_eq!(settings.beep_tone, BeepTone::On);
    assert_eq!(settings._unknown8, 0);
    assert!(settings.data.is_empty());
}

#[test]
fn setting_codes() {
    assert_eq!(BatterySave::from(0), BatterySave::Off);
    assert_eq!(BatterySave::from(1), BatterySave::On);
    assert_eq!(u8::from(BatterySave::On), 1);
    assert_eq!(BeepTone::from(0), BeepTone::Off);
    assert_eq!(u8::from(BeepTone::Unknown(9)), 9);
    assert_eq!(Squelch::from(9), Squelch::Level9);
    assert_eq!(u8::from(Squelch::Level7), 7);
    assert_eq!(ScanMode::from(1), ScanMode::Time);
    assert_eq!(ScanMode::from(2), ScanMode::Unknown(2));
    assert_eq!(u8::from(TimeOutTimer::ThreeMinutes), 6);
    assert_eq!(VoxDelayTimes::from(5), VoxDelayTimes::ThreeSeconds);
    assert_eq!(u8::from(SideKeyFunction::VoiceSwitch), 4);
    assert_eq!(VoxLevel::from(0), VoxLevel::Off);
    assert_eq!(VoiceAnnunciation::from(1), VoiceAnnunciation::Chinese);
}

#[test]
fn every_code_round_trips() {
    for value in 0..=255u8 {
        assert_eq!(u8::from(Squelch::from(value)), value);
        assert_eq!(u8::from(TimeOutTimer::from(value)), value);
        assert_eq!(u8::from(VoxLevel::from(value)), value);
        assert_eq!(u8::from(VoxDelayTimes::from(value)), value);
        assert_eq!(u8::from(ScanMode::from(value)), value);
        assert_eq!(u8::from(VoiceAnnunciation::from(value)), value);
        assert_eq!(u8::from(SideKeyFunction::from(value)), value);
        assert_eq!(u8::from(BatterySave::from(value)), value);
        assert_eq!(u8::from(BeepTone::from(value)), value);
    }
    // A canonical value decodes from its code; an Unknown holding a named code does not.
    assert_eq!(Squelch::from(u8::from(Squelch::Unknown(42))), Squelch::Unknown(42));
    assert_eq!(Squelch::from(u8::from(Squelch::Unknown(3))), Squelch::Level3);
}
