//! The settings the radio ships with.
use vstd::prelude::*;

use crate::settings::{
    BatterySave, BeepTone, ScanMode, Settings, SideKeyFunction, Squelch, TimeOutTimer,
    VoiceAnnunciation, VoxDelayTimes, VoxLevel,
};

verus! {

/// The factory settings: squelch level 3, English voice prompts, battery save and
/// key beep on, everything else off; the last three unknown bytes are `ff`.
pub fn default_settings() -> (settings: Settings)
    ensures
        settings.squelch == Squelch::Level3,
        settings.time_out_timer == TimeOutTimer::Off,
        settings.vox == VoxLevel::Off,
        settings.vox_delay_time == VoxDelayTimes::HalfSecond,
        settings.scan_mode == ScanMode::Carrier,
        settings.voice_annunciation == VoiceAnnunciation::English,
        settings.side_key_1_long == SideKeyFunction::Off,
        settings.side_key_2_long == SideKeyFunction::Off,
        settings.battery_save == BatterySave::On,
        settings.beep_tone == BeepTone::On,
        settings._unknown5 == 0,
        settings._unknown6 == 0,
        settings._unknown7 == 0,
        settings._unknown8 == 255,
        settings._unknown9 == 255,
        settings._unknown10 == 255,
        settings.data@ == Seq::<u8>::empty(),
{
    Settings {
        squelch: Squelch::Level3,
        time_out_timer: TimeOutTimer::Off,
        vox: VoxLevel::Off,
        vox_delay_time: VoxDelayTimes::HalfSecond,
        scan_mode: ScanMode::Carrier,
        voice_annunciation: VoiceAnnunciation::English,
        side_key_1_long: SideKeyFunction::Off,
        side_key_2_long: SideKeyFunction::Off,
        battery_save: BatterySave::On,
        beep_tone: BeepTone::On,
        _unknown5: 0,
        _unknown6: 0,
        _unknown7: 0,
        _unknown8: 255,
        _unknown9: 255,
        _unknown10: 255,
        data: Vec::new(),
    }
}

} // verus!
