//! The settings block: eleven bytes of radio wide settings.
use vstd::prelude::*;

pub mod default_settings;

verus! {

/// Squelch level. Codes without a name are kept as `Unknown`.
#[derive(Debug, PartialEq, Eq, Structural)]
pub enum Squelch {
    Level0,
    Level1,
    Level2,
    Level3,
    Level4,
    Level5,
    Level6,
    Level7,
    Level8,
    Level9,
    Unknown(u8),
}

impl Squelch {
    /// The setting that a stored code stands for.
    pub open spec fn from_code(value: u8) -> Squelch {
        match value {
            0u8 => Squelch::Level0,
            1u8 => Squelch::Level1,
            2u8 => Squelch::Level2,
            3u8 => Squelch::Level3,
            4u8 => Squelch::Level4,
            5u8 => Squelch::Level5,
            6u8 => Squelch::Level6,
            7u8 => Squelch::Level7,
            8u8 => Squelch::Level8,
            9u8 => Squelch::Level9,
            x => Squelch::Unknown(x),
        }
    }

    /// The code the radio stores for this setting.
    pub open spec fn code(self) -> u8 {
        match self {
            Squelch::Level0 => 0,
            Squelch::Level1 => 1,
            Squelch::Level2 => 2,
            Squelch::Level3 => 3,
            Squelch::Level4 => 4,
            Squelch::Level5 => 5,
            Squelch::Level6 => 6,
            Squelch::Level7 => 7,
            Squelch::Level8 => 8,
            Squelch::Level9 => 9,
            Squelch::Unknown(x) => x,
        }
    }

    /// Whether the value is the one its code decodes to: not an `Unknown` that
    /// holds a named code.
    pub open spec fn is_canonical(self) -> bool {
        !(self matches Squelch::Unknown(x) && x < 10)
    }
}

impl Default for Squelch {
    fn default() -> (setting: Self)
        ensures
            setting == Squelch::Level3,
    {
        Squelch::Level3
    }
}

impl From<u8> for Squelch {
    fn from(value: u8) -> (setting: Self)
        ensures
            setting == Squelch::from_code(value),
    {
        match value {
            0 => Squelch::Level0,
            1 => Squelch::Level1,
            2 => Squelch::Level2,
            3 => Squelch::Level3,
            4 => Squelch::Level4,
            5 => Squelch::Level5,
            6 => Squelch::Level6,
            7 => Squelch::Level7,
            8 => Squelch::Level8,
            9 => Squelch::Level9,
            x => Squelch::Unknown(x),
        }
    }
}

impl vstd::std_specs::convert::FromSpecImpl<u8> for Squelch {
    open spec fn obeys_from_spec() -> bool {
        true
    }

    open spec fn from_spec(value: u8) -> Self {
        Squelch::from_code(value)
    }
}

impl From<Squelch> for u8 {
    fn from(value: Squelch) -> (code: Self)
        ensures
            code == value.code(),
    {
        match value {
            Squelch::Level0 => 0,
            Squelch::Level1 => 1,
            Squelch::Level2 => 2,
            Squelch::Level3 => 3,
            Squelch::Level4 => 4,
            Squelch::Level5 => 5,
            Squelch::Level6 => 6,
            Squelch::Level7 => 7,
            Squelch::Level8 => 8,
            Squelch::Level9 => 9,
            Squelch::Unknown(x) => x,
        }
    }
}

impl vstd::std_specs::convert::FromSpecImpl<Squelch> for u8 {
    open spec fn obeys_from_spec() -> bool {
        true
    }

    open spec fn from_spec(value: Squelch) -> u8 {
        value.code()
    }
}

/// Every code decodes to a setting that stores the same code; a canonical setting
/// decodes from its own code.
pub proof fn lemma_squelch_code_round_trip(value: u8, setting: Squelch)
    ensures
        Squelch::from_code(value).code() == value,
        Squelch::from_code(value).is_canonical(),
        setting.is_canonical() ==> Squelch::from_code(setting.code()) == setting,
{
}

/// How long the radio may transmit without a break. Codes without a name are kept as `Unknown`.
#[derive(Debug, PartialEq, Eq, Structural)]
pub enum TimeOutTimer {
    Off,
    ThirtySeconds,
    OneMinute,
    OneAndAHalfMinutes,
    TwoMinutes,
    TwoAndAHalfMinutes,
    ThreeMinutes,
    Unknown(u8),
}

impl TimeOutTimer {
    /// The setting that a stored code stands for.
    pub open spec fn from_code(value: u8) -> TimeOutTimer {
        match value {
            0u8 => TimeOutTimer::Off,
            1u8 => TimeOutTimer::ThirtySeconds,
            2u8 => TimeOutTimer::OneMinute,
            3u8 => TimeOutTimer::OneAndAHalfMinutes,
            4u8 => TimeOutTimer::TwoMinutes,
            5u8 => TimeOutTimer::TwoAndAHalfMinutes,
            6u8 => TimeOutTimer::ThreeMinutes,
            x => TimeOutTimer::Unknown(x),
        }
    }

    /// The code the radio stores for this setting.
    pub open spec fn code(self) -> u8 {
        match self {
            TimeOutTimer::Off => 0,
            TimeOutTimer::ThirtySeconds => 1,
            TimeOutTimer::OneMinute => 2,
            TimeOutTimer::OneAndAHalfMinutes => 3,
            TimeOutTimer::TwoMinutes => 4,
            TimeOutTimer::TwoAndAHalfMinutes => 5,
            TimeOutTimer::ThreeMinutes => 6,
            TimeOutTimer::Unknown(x) => x,
        }
    }

    /// Whether the value is the one its code decodes to: not an `Unknown` that
    /// holds a named code.
    pub open spec fn is_canonical(self) -> bool {
        !(self matches TimeOutTimer::Unknown(x) && x < 7)
    }
}

impl Default for TimeOutTimer {
    fn default() -> (setting: Self)
        ensures
            setting == TimeOutTimer::Off,
    {
        TimeOutTimer::Off
    }
}

impl From<u8> for TimeOutTimer {
    fn from(value: u8) -> (setting: Self)
        ensures
            setting == TimeOutTimer::from_code(value),
    {
        match value {
            0 => TimeOutTimer::Off,
            1 => TimeOutTimer::ThirtySeconds,
            2 => TimeOutTimer::OneMinute,
            3 => TimeOutTimer::OneAndAHalfMinutes,
            4 => TimeOutTimer::TwoMinutes,
            5 => TimeOutTimer::TwoAndAHalfMinutes,
            6 => TimeOutTimer::ThreeMinutes,
            x => TimeOutTimer::Unknown(x),
        }
    }
}

impl vstd::std_specs::convert::FromSpecImpl<u8> for TimeOutTimer {
    open spec fn obeys_from_spec() -> bool {
        true
    }

    open spec fn from_spec(value: u8) -> Self {
        TimeOutTimer::from_code(value)
    }
}

impl From<TimeOutTimer> for u8 {
    fn from(value: TimeOutTimer) -> (code: Self)
        ensures
            code == value.code(),
    {
        match value {
            TimeOutTimer::Off => 0,
            TimeOutTimer::ThirtySeconds => 1,
            TimeOutTimer::OneMinute => 2,
            TimeOutTimer::OneAndAHalfMinutes => 3,
            TimeOutTimer::TwoMinutes => 4,
            TimeOutTimer::TwoAndAHalfMinutes => 5,
            TimeOutTimer::ThreeMinutes => 6,
            TimeOutTimer::Unknown(x) => x,
        }
    }
}

impl vstd::std_specs::convert::FromSpecImpl<TimeOutTimer> for u8 {
    open spec fn obeys_from_spec() -> bool {
        true
    }

    open spec fn from_spec(value: TimeOutTimer) -> u8 {
        value.code()
    }
}

/// Every code decodes to a setting that stores the same code; a canonical setting
/// decodes from its own code.
pub proof fn lemma_time_out_timer_code_round_trip(value: u8, setting: TimeOutTimer)
    ensures
        TimeOutTimer::from_code(value).code() == value,
        TimeOutTimer::from_code(value).is_canonical(),
        setting.is_canonical() ==> TimeOutTimer::from_code(setting.code()) == setting,
{
}

/// Voice operated transmit sensitivity. Codes without a name are kept as `Unknown`.
#[derive(Debug, PartialEq, Eq, Structural)]
pub enum VoxLevel {
    Off,
    Level1,
    Level2,
    Level3,
    Level4,
    Level5,
    Level6,
    Level7,
    Level8,
    Level9,
    Unknown(u8),
}

impl VoxLevel {
    /// The setting that a stored code stands for.
    pub open spec fn from_code(value: u8) -> VoxLevel {
        match value {
            0u8 => VoxLevel::Off,
            1u8 => VoxLevel::Level1,
            2u8 => VoxLevel::Level2,
            3u8 => VoxLevel::Level3,
            4u8 => VoxLevel::Level4,
            5u8 => VoxLevel::Level5,
            6u8 => VoxLevel::Level6,
            7u8 => VoxLevel::Level7,
            8u8 => VoxLevel::Level8,
            9u8 => VoxLevel::Level9,
            x => VoxLevel::Unknown(x),
        }
    }

    /// The code the radio stores for this setting.
    pub open spec fn code(self) -> u8 {
        match self {
            VoxLevel::Off => 0,
            VoxLevel::Level1 => 1,
            VoxLevel::Level2 => 2,
            VoxLevel::Level3 => 3,
            VoxLevel::Level4 => 4,
            VoxLevel::Level5 => 5,
            VoxLevel::Level6 => 6,
            VoxLevel::Level7 => 7,
            VoxLevel::Level8 => 8,
            VoxLevel::Level9 => 9,
            VoxLevel::Unknown(x) => x,
        }
    }

    /// Whether the value is the one its code decodes to: not an `Unknown` that
    /// holds a named code.
    pub open spec fn is_canonical(self) -> bool {
        !(self matches VoxLevel::Unknown(x) && x < 10)
    }
}

impl Default for VoxLevel {
    fn default() -> (setting: Self)
        ensures
            setting == VoxLevel::Off,
    {
        VoxLevel::Off
    }
}

impl From<u8> for VoxLevel {
    fn from(value: u8) -> (setting: Self)
        ensures
            setting == VoxLevel::from_code(value),
    {
        match value {
            0 => VoxLevel::Off,
            1 => VoxLevel::Level1,
            2 => VoxLevel::Level2,
            3 => VoxLevel::Level3,
            4 => VoxLevel::Level4,
            5 => VoxLevel::Level5,
            6 => VoxLevel::Level6,
            7 => VoxLevel::Level7,
            8 => VoxLevel::Level8,
            9 => VoxLevel::Level9,
            x => VoxLevel::Unknown(x),
        }
    }
}

impl vstd::std_specs::convert::FromSpecImpl<u8> for VoxLevel {
    open spec fn obeys_from_spec() -> bool {
        true
    }

    open spec fn from_spec(value: u8) -> Self {
        VoxLevel::from_code(value)
    }
}

impl From<VoxLevel> for u8 {
    fn from(value: VoxLevel) -> (code: Self)
        ensures
            code == value.code(),
    {
        match value {
            VoxLevel::Off => 0,
            VoxLevel::Level1 => 1,
            VoxLevel::Level2 => 2,
            VoxLevel::Level3 => 3,
            VoxLevel::Level4 => 4,
            VoxLevel::Level5 => 5,
            VoxLevel::Level6 => 6,
            VoxLevel::Level7 => 7,
            VoxLevel::Level8 => 8,
            VoxLevel::Level9 => 9,
            VoxLevel::Unknown(x) => x,
        }
    }
}

impl vstd::std_specs::convert::FromSpecImpl<VoxLevel> for u8 {
    open spec fn obeys_from_spec() -> bool {
        true
    }

    open spec fn from_spec(value: VoxLevel) -> u8 {
        value.code()
    }
}

/// Every code decodes to a setting that stores the same code; a canonical setting
/// decodes from its own code.
pub proof fn lemma_vox_level_code_round_trip(value: u8, setting: VoxLevel)
    ensures
        VoxLevel::from_code(value).code() == value,
        VoxLevel::from_code(value).is_canonical(),
        setting.is_canonical() ==> VoxLevel::from_code(setting.code()) == setting,
{
}

/// How long voice operated transmit holds after the voice stops. Codes without a name are kept as `Unknown`.
#[derive(Debug, PartialEq, Eq, Structural)]
pub enum VoxDelayTimes {
    HalfSecond,
    OneSecond,
    OneAndAHalfSeconds,
    TwoSeconds,
    TwoAndAHalfSeconds,
    ThreeSeconds,
    Unknown(u8),
}

impl VoxDelayTimes {
    /// The setting that a stored code stands for.
    pub open spec fn from_code(value: u8) -> VoxDelayTimes {
        match value {
            0u8 => VoxDelayTimes::HalfSecond,
            1u8 => VoxDelayTimes::OneSecond,
            2u8 => VoxDelayTimes::OneAndAHalfSeconds,
            3u8 => VoxDelayTimes::TwoSeconds,
            4u8 => VoxDelayTimes::TwoAndAHalfSeconds,
            5u8 => VoxDelayTimes::ThreeSeconds,
            x => VoxDelayTimes::Unknown(x),
        }
    }

    /// The code the radio stores for this setting.
    pub open spec fn code(self) -> u8 {
        match self {
            VoxDelayTimes::HalfSecond => 0,
            VoxDelayTimes::OneSecond => 1,
            VoxDelayTimes::OneAndAHalfSeconds => 2,
            VoxDelayTimes::TwoSeconds => 3,
            VoxDelayTimes::TwoAndAHalfSeconds => 4,
            VoxDelayTimes::ThreeSeconds => 5,
            VoxDelayTimes::Unknown(x) => x,
        }
    }

    /// Whether the value is the one its code decodes to: not an `Unknown` that
    /// holds a named code.
    pub open spec fn is_canonical(self) -> bool {
        !(self matches VoxDelayTimes::Unknown(x) && x < 6)
    }
}

impl Default for VoxDelayTimes {
    fn default() -> (setting: Self)
        ensures
            setting == VoxDelayTimes::HalfSecond,
    {
        VoxDelayTimes::HalfSecond
    }
}

impl From<u8> for VoxDelayTimes {
    fn from(value: u8) -> (setting: Self)
        ensures
            setting == VoxDelayTimes::from_code(value),
    {
        match value {
            0 => VoxDelayTimes::HalfSecond,
            1 => VoxDelayTimes::OneSecond,
            2 => VoxDelayTimes::OneAndAHalfSeconds,
            3 => VoxDelayTimes::TwoSeconds,
            4 => VoxDelayTimes::TwoAndAHalfSeconds,
            5 => VoxDelayTimes::ThreeSeconds,
            x => VoxDelayTimes::Unknown(x),
        }
    }
}

impl vstd::std_specs::convert::FromSpecImpl<u8> for VoxDelayTimes {
    open spec fn obeys_from_spec() -> bool {
        true
    }

    open spec fn from_spec(value: u8) -> Self {
        VoxDelayTimes::from_code(value)
    }
}

impl From<VoxDelayTimes> for u8 {
    fn from(value: VoxDelayTimes) -> (code: Self)
        ensures
            code == value.code(),
    {
        match value {
            VoxDelayTimes::HalfSecond => 0,
            VoxDelayTimes::OneSecond => 1,
            VoxDelayTimes::OneAndAHalfSeconds => 2,
            VoxDelayTimes::TwoSeconds => 3,
            VoxDelayTimes::TwoAndAHalfSeconds => 4,
            VoxDelayTimes::ThreeSeconds => 5,
            VoxDelayTimes::Unknown(x) => x,
        }
    }
}

impl vstd::std_specs::convert::FromSpecImpl<VoxDelayTimes> for u8 {
    open spec fn obeys_from_spec() -> bool {
        true
    }

    open spec fn from_spec(value: VoxDelayTimes) -> u8 {
        value.code()
    }
}

/// Every code decodes to a setting that stores the same code; a canonical setting
/// decodes from its own code.
pub proof fn lemma_vox_delay_times_code_round_trip(value: u8, setting: VoxDelayTimes)
    ensures
        VoxDelayTimes::from_code(value).code() == value,
        VoxDelayTimes::from_code(value).is_canonical(),
        setting.is_canonical() ==> VoxDelayTimes::from_code(setting.code()) == setting,
{
}

/// When scanning resumes after it stopped on a channel. Codes without a name are kept as `Unknown`.
#[derive(Debug, PartialEq, Eq, Structural)]
pub enum ScanMode {
    Carrier,
    Time,
    Unknown(u8),
}

impl ScanMode {
    /// The setting that a stored code stands for.
    pub open spec fn from_code(value: u8) -> ScanMode {
        match value {
            0u8 => ScanMode::Carrier,
            1u8 => ScanMode::Time,
            x => ScanMode::Unknown(x),
        }
    }

    /// The code the radio stores for this setting.
    pub open spec fn code(self) -> u8 {
        match self {
            ScanMode::Carrier => 0,
            ScanMode::Time => 1,
            ScanMode::Unknown(x) => x,
        }
    }

    /// Whether the value is the one its code decodes to: not an `Unknown` that
    /// holds a named code.
    pub open spec fn is_canonical(self) -> bool {
        !(self matches ScanMode::Unknown(x) && x < 2)
    }
}

impl Default for ScanMode {
    fn default() -> (setting: Self)
        ensures
            setting == ScanMode::Carrier,
    {
        ScanMode::Carrier
    }
}

impl From<u8> for ScanMode {
    fn from(value: u8) -> (setting: Self)
        ensures
            setting == ScanMode::from_code(value),
    {
        match value {
            0 => ScanMode::Carrier,
            1 => ScanMode::Time,
            x => ScanMode::Unknown(x),
        }
    }
}

impl vstd::std_specs::convert::FromSpecImpl<u8> for ScanMode {
    open spec fn obeys_from_spec() -> bool {
        true
    }

    open spec fn from_spec(value: u8) -> Self {
        ScanMode::from_code(value)
    }
}

impl From<ScanMode> for u8 {
    fn from(value: ScanMode) -> (code: Self)
        ensures
            code == value.code(),
    {
        match value {
            ScanMode::Carrier => 0,
            ScanMode::Time => 1,
            ScanMode::Unknown(x) => x,
        }
    }
}

impl vstd::std_specs::convert::FromSpecImpl<ScanMode> for u8 {
    open spec fn obeys_from_spec() -> bool {
        true
    }

    open spec fn from_spec(value: ScanMode) -> u8 {
        value.code()
    }
}

/// Every code decodes to a setting that stores the same code; a canonical setting
/// decodes from its own code.
pub proof fn lemma_scan_mode_code_round_trip(value: u8, setting: ScanMode)
    ensures
        ScanMode::from_code(value).code() == value,
        ScanMode::from_code(value).is_canonical(),
        setting.is_canonical() ==> ScanMode::from_code(setting.code()) == setting,
{
}

/// The language of spoken prompts. Codes without a name are kept as `Unknown`.
#[derive(Debug, PartialEq, Eq, Structural)]
pub enum VoiceAnnunciation {
    Off,
    Chinese,
    English,
    Unknown(u8),
}

impl VoiceAnnunciation {
    /// The setting that a stored code stands for.
    pub open spec fn from_code(value: u8) -> VoiceAnnunciation {
        match value {
            0u8 => VoiceAnnunciation::Off,
            1u8 => VoiceAnnunciation::Chinese,
            2u8 => VoiceAnnunciation::English,
            x => VoiceAnnunciation::Unknown(x),
        }
    }

    /// The code the radio stores for this setting.
    pub open spec fn code(self) -> u8 {
        match self {
            VoiceAnnunciation::Off => 0,
            VoiceAnnunciation::Chinese => 1,
            VoiceAnnunciation::English => 2,
            VoiceAnnunciation::Unknown(x) => x,
        }
    }

    /// Whether the value is the one its code decodes to: not an `Unknown` that
    /// holds a named code.
    pub open spec fn is_canonical(self) -> bool {
        !(self matches VoiceAnnunciation::Unknown(x) && x < 3)
    }
}

impl Default for VoiceAnnunciation {
    fn default() -> (setting: Self)
        ensures
            setting == VoiceAnnunciation::Off,
    {
        VoiceAnnunciation::Off
    }
}

impl From<u8> for VoiceAnnunciation {
    fn from(value: u8) -> (setting: Self)
        ensures
            setting == VoiceAnnunciation::from_code(value),
    {
        match value {
            0 => VoiceAnnunciation::Off,
            1 => VoiceAnnunciation::Chinese,
            2 => VoiceAnnunciation::English,
            x => VoiceAnnunciation::Unknown(x),
        }
    }
}

impl vstd::std_specs::convert::FromSpecImpl<u8> for VoiceAnnunciation {
    open spec fn obeys_from_spec() -> bool {
        true
    }

    open spec fn from_spec(value: u8) -> Self {
        VoiceAnnunciation::from_code(value)
    }
}

impl From<VoiceAnnunciation> for u8 {
    fn from(value: VoiceAnnunciation) -> (code: Self)
        ensures
            code == value.code(),
    {
        match value {
            VoiceAnnunciation::Off => 0,
            VoiceAnnunciation::Chinese => 1,
            VoiceAnnunciation::English => 2,
            VoiceAnnunciation::Unknown(x) => x,
        }
    }
}

impl vstd::std_specs::convert::FromSpecImpl<VoiceAnnunciation> for u8 {
    open spec fn obeys_from_spec() -> bool {
        true
    }

    open spec fn from_spec(value: VoiceAnnunciation) -> u8 {
        value.code()
    }
}

/// Every code decodes to a setting that stores the same code; a canonical setting
/// decodes from its own code.
pub proof fn lemma_voice_annunciation_code_round_trip(value: u8, setting: VoiceAnnunciation)
    ensures
        VoiceAnnunciation::from_code(value).code() == value,
        VoiceAnnunciation::from_code(value).is_canonical(),
        setting.is_canonical() ==> VoiceAnnunciation::from_code(setting.code()) == setting,
{
}

/// What a long press of a side key does. Codes without a name are kept as `Unknown`.
#[derive(Debug, PartialEq, Eq, Structural)]
pub enum SideKeyFunction {
    Off,
    ChannelBroadcast,
    Monitor,
    Scan,
    VoiceSwitch,
    EmergencyAlarm,
    Unknown(u8),
}

impl SideKeyFunction {
    /// The setting that a stored code stands for.
    pub open spec fn from_code(value: u8) -> SideKeyFunction {
        match value {
            0u8 => SideKeyFunction::Off,
            1u8 => SideKeyFunction::ChannelBroadcast,
            2u8 => SideKeyFunction::Monitor,
            3u8 => SideKeyFunction::Scan,
            4u8 => SideKeyFunction::VoiceSwitch,
            5u8 => SideKeyFunction::EmergencyAlarm,
            x => SideKeyFunction::Unknown(x),
        }
    }

    /// The code the radio stores for this setting.
    pub open spec fn code(self) -> u8 {
        match self {
            SideKeyFunction::Off => 0,
            SideKeyFunction::ChannelBroadcast => 1,
            SideKeyFunction::Monitor => 2,
            SideKeyFunction::Scan => 3,
            SideKeyFunction::VoiceSwitch => 4,
            SideKeyFunction::EmergencyAlarm => 5,
            SideKeyFunction::Unknown(x) => x,
        }
    }

    /// Whether the value is the one its code decodes to: not an `Unknown` that
    /// holds a named code.
    pub open spec fn is_canonical(self) -> bool {
        !(self matches SideKeyFunction::Unknown(x) && x < 6)
    }
}

impl Default for SideKeyFunction {
    fn default() -> (setting: Self)
        ensures
            setting == SideKeyFunction::Off,
    {
        SideKeyFunction::Off
    }
}

impl From<u8> for SideKeyFunction {
    fn from(value: u8) -> (setting: Self)
        ensures
            setting == SideKeyFunction::from_code(value),
    {
        match value {
            0 => SideKeyFunction::Off,
            1 => SideKeyFunction::ChannelBroadcast,
            2 => SideKeyFunction::Monitor,
            3 => SideKeyFunction::Scan,
            4 => SideKeyFunction::VoiceSwitch,
            5 => SideKeyFunction::EmergencyAlarm,
            x => SideKeyFunction::Unknown(x),
        }
    }
}

impl vstd::std_specs::convert::FromSpecImpl<u8> for SideKeyFunction {
    open spec fn obeys_from_spec() -> bool {
        true
    }

    open spec fn from_spec(value: u8) -> Self {
        SideKeyFunction::from_code(value)
    }
}

impl From<SideKeyFunction> for u8 {
    fn from(value: SideKeyFunction) -> (code: Self)
        ensures
            code == value.code(),
    {
        match value {
            SideKeyFunction::Off => 0,
            SideKeyFunction::ChannelBroadcast => 1,
            SideKeyFunction::Monitor => 2,
            SideKeyFunction::Scan => 3,
            SideKeyFunction::VoiceSwitch => 4,
            SideKeyFunction::EmergencyAlarm => 5,
            SideKeyFunction::Unknown(x) => x,
        }
    }
}

impl vstd::std_specs::convert::FromSpecImpl<SideKeyFunction> for u8 {
    open spec fn obeys_from_spec() -> bool {
        true
    }

    open spec fn from_spec(value: SideKeyFunction) -> u8 {
        value.code()
    }
}

/// Every code decodes to a setting that stores the same code; a canonical setting
/// decodes from its own code.
pub proof fn lemma_side_key_function_code_round_trip(value: u8, setting: SideKeyFunction)
    ensures
        SideKeyFunction::from_code(value).code() == value,
        SideKeyFunction::from_code(value).is_canonical(),
        setting.is_canonical() ==> SideKeyFunction::from_code(setting.code()) == setting,
{
}

/// Battery saving. Codes without a name are kept as `Unknown`.
#[derive(Debug, PartialEq, Eq, Structural)]
pub enum BatterySave {
    On,
    Off,
    Unknown(u8),
}

impl BatterySave {
    /// The setting that a stored code stands for.
    pub open spec fn from_code(value: u8) -> BatterySave {
        match value {
            0u8 => BatterySave::Off,
            1u8 => BatterySave::On,
            x => BatterySave::Unknown(x),
        }
    }

    /// The code the radio stores for this setting.
    pub open spec fn code(self) -> u8 {
        match self {
            BatterySave::On => 1,
            BatterySave::Off => 0,
            BatterySave::Unknown(x) => x,
        }
    }

    /// Whether the value is the one its code decodes to: not an `Unknown` that
    /// holds a named code.
    pub open spec fn is_canonical(self) -> bool {
        !(self matches BatterySave::Unknown(x) && x < 2)
    }
}

impl Default for BatterySave {
    fn default() -> (setting: Self)
        ensures
            setting == BatterySave::On,
    {
        BatterySave::On
    }
}

impl From<u8> for BatterySave {
    fn from(value: u8) -> (setting: Self)
        ensures
            setting == BatterySave::from_code(value),
    {
        match value {
            0 => BatterySave::Off,
            1 => BatterySave::On,
            x => BatterySave::Unknown(x),
        }
    }
}

impl vstd::std_specs::convert::FromSpecImpl<u8> for BatterySave {
    open spec fn obeys_from_spec() -> bool {
        true
    }

    open spec fn from_spec(value: u8) -> Self {
        BatterySave::from_code(value)
    }
}

impl From<BatterySave> for u8 {
    fn from(value: BatterySave) -> (code: Self)
        ensures
            code == value.code(),
    {
        match value {
            BatterySave::On => 1,
            BatterySave::Off => 0,
            BatterySave::Unknown(x) => x,
        }
    }
}

impl vstd::std_specs::convert::FromSpecImpl<BatterySave> for u8 {
    open spec fn obeys_from_spec() -> bool {
        true
    }

    open spec fn from_spec(value: BatterySave) -> u8 {
        value.code()
    }
}

/// Every code decodes to a setting that stores the same code; a canonical setting
/// decodes from its own code.
pub proof fn lemma_battery_save_code_round_trip(value: u8, setting: BatterySave)
    ensures
        BatterySave::from_code(value).code() == value,
        BatterySave::from_code(value).is_canonical(),
        setting.is_canonical() ==> BatterySave::from_code(setting.code()) == setting,
{
}

/// Key beep. Codes without a name are kept as `Unknown`.
#[derive(Debug, PartialEq, Eq, Structural)]
pub enum BeepTone {
    On,
    Off,
    Unknown(u8),
}

impl BeepTone {
    /// The setting that a stored code stands for.
    pub open spec fn from_code(value: u8) -> BeepTone {
        match value {
            0u8 => BeepTone::Off,
            1u8 => BeepTone::On,
            x => BeepTone::Unknown(x),
        }
    }

    /// The code the radio stores for this setting.
    pub open spec fn code(self) -> u8 {
        match self {
            BeepTone::On => 1,
            BeepTone::Off => 0,
            BeepTone::Unknown(x) => x,
        }
    }

    /// Whether the value is the one its code decodes to: not an `Unknown` that
    /// holds a named code.
    pub open spec fn is_canonical(self) -> bool {
        !(self matches BeepTone::Unknown(x) && x < 2)
    }
}

impl Default for BeepTone {
    fn default() -> (setting: Self)
        ensures
            setting == BeepTone::On,
    {
        BeepTone::On
    }
}

impl From<u8> for BeepTone {
    fn from(value: u8) -> (setting: Self)
        ensures
            setting == BeepTone::from_code(value),
    {
        match value {
            0 => BeepTone::Off,
            1 => BeepTone::On,
            x => BeepTone::Unknown(x),
        }
    }
}

impl vstd::std_specs::convert::FromSpecImpl<u8> for BeepTone {
    open spec fn obeys_from_spec() -> bool {
        true
    }

    open spec fn from_spec(value: u8) -> Self {
        BeepTone::from_code(value)
    }
}

impl From<BeepTone> for u8 {
    fn from(value: BeepTone) -> (code: Self)
        ensures
            code == value.code(),
    {
        match value {
            BeepTone::On => 1,
            BeepTone::Off => 0,
            BeepTone::Unknown(x) => x,
        }
    }
}

impl vstd::std_specs::convert::FromSpecImpl<BeepTone> for u8 {
    open spec fn obeys_from_spec() -> bool {
        true
    }

    open spec fn from_spec(value: BeepTone) -> u8 {
        value.code()
    }
}

/// Every code decodes to a setting that stores the same code; a canonical setting
/// decodes from its own code.
pub proof fn lemma_beep_tone_code_round_trip(value: u8, setting: BeepTone)
    ensures
        BeepTone::from_code(value).code() == value,
        BeepTone::from_code(value).is_canonical(),
        setting.is_canonical() ==> BeepTone::from_code(setting.code()) == setting,
{
}

/// The code of each named setting, and what other codes decode to.
pub proof fn lemma_squelch_codes()
    ensures
        Squelch::Level0.code() == 0,
        Squelch::Level1.code() == 1,
        Squelch::Level2.code() == 2,
        Squelch::Level3.code() == 3,
        Squelch::Level4.code() == 4,
        Squelch::Level5.code() == 5,
        Squelch::Level6.code() == 6,
        Squelch::Level7.code() == 7,
        Squelch::Level8.code() == 8,
        Squelch::Level9.code() == 9,
        Squelch::from_code(0) == Squelch::Level0,
        Squelch::from_code(1) == Squelch::Level1,
        Squelch::from_code(2) == Squelch::Level2,
        Squelch::from_code(3) == Squelch::Level3,
        Squelch::from_code(4) == Squelch::Level4,
        Squelch::from_code(5) == Squelch::Level5,
        Squelch::from_code(6) == Squelch::Level6,
        Squelch::from_code(7) == Squelch::Level7,
        Squelch::from_code(8) == Squelch::Level8,
        Squelch::from_code(9) == Squelch::Level9,
        forall|value: u8| value >= 10 ==> #[trigger] Squelch::from_code(value) == Squelch::Unknown(value),
        forall|value: u8| #[trigger] Squelch::Unknown(value).code() == value,
{
}

/// The code of each named setting, and what other codes decode to.
pub proof fn lemma_time_out_timer_codes()
    ensures
        TimeOutTimer::Off.code() == 0,
        TimeOutTimer::ThirtySeconds.code() == 1,
        TimeOutTimer::OneMinute.code() == 2,
        TimeOutTimer::OneAndAHalfMinutes.code() == 3,
        TimeOutTimer::TwoMinutes.code() == 4,
        TimeOutTimer::TwoAndAHalfMinutes.code() == 5,
        TimeOutTimer::ThreeMinutes.code() == 6,
        TimeOutTimer::from_code(0) == TimeOutTimer::Off,
        TimeOutTimer::from_code(1) == TimeOutTimer::ThirtySeconds,
        TimeOutTimer::from_code(2) == TimeOutTimer::OneMinute,
        TimeOutTimer::from_code(3) == TimeOutTimer::OneAndAHalfMinutes,
        TimeOutTimer::from_code(4) == TimeOutTimer::TwoMinutes,
        TimeOutTimer::from_code(5) == TimeOutTimer::TwoAndAHalfMinutes,
        TimeOutTimer::from_code(6) == TimeOutTimer::ThreeMinutes,
        forall|value: u8| value >= 7 ==> #[trigger] TimeOutTimer::from_code(value) == TimeOutTimer::Unknown(value),
        forall|value: u8| #[trigger] TimeOutTimer::Unknown(value).code() == value,
{
}

/// The code of each named setting, and what other codes decode to.
pub proof fn lemma_vox_level_codes()
    ensures
        VoxLevel::Off.code() == 0,
        VoxLevel::Level1.code() == 1,
        VoxLevel::Level2.code() == 2,
        VoxLevel::Level3.code() == 3,
        VoxLevel::Level4.code() == 4,
        VoxLevel::Level5.code() == 5,
        VoxLevel::Level6.code() == 6,
        VoxLevel::Level7.code() == 7,
        VoxLevel::Level8.code() == 8,
        VoxLevel::Level9.code() == 9,
        VoxLevel::from_code(0) == VoxLevel::Off,
        VoxLevel::from_code(1) == VoxLevel::Level1,
        VoxLevel::from_code(2) == VoxLevel::Level2,
        VoxLevel::from_code(3) == VoxLevel::Level3,
        VoxLevel::from_code(4) == VoxLevel::Level4,
        VoxLevel::from_code(5) == VoxLevel::Level5,
        VoxLevel::from_code(6) == VoxLevel::Level6,
        VoxLevel::from_code(7) == VoxLevel::Level7,
        VoxLevel::from_code(8) == VoxLevel::Level8,
        VoxLevel::from_code(9) == VoxLevel::Level9,
        forall|value: u8| value >= 10 ==> #[trigger] VoxLevel::from_code(value) == VoxLevel::Unknown(value),
        forall|value: u8| #[trigger] VoxLevel::Unknown(value).code() == value,
{
}

/// The code of each named setting, and what other codes decode to.
pub proof fn lemma_vox_delay_times_codes()
    ensures
        VoxDelayTimes::HalfSecond.code() == 0,
        VoxDelayTimes::OneSecond.code() == 1,
        VoxDelayTimes::OneAndAHalfSeconds.code() == 2,
        VoxDelayTimes::TwoSeconds.code() == 3,
        VoxDelayTimes::TwoAndAHalfSeconds.code() == 4,
        VoxDelayTimes::ThreeSeconds.code() == 5,
        VoxDelayTimes::from_code(0) == VoxDelayTimes::HalfSecond,
        VoxDelayTimes::from_code(1) == VoxDelayTimes::OneSecond,
        VoxDelayTimes::from_code(2) == VoxDelayTimes::OneAndAHalfSeconds,
        VoxDelayTimes::from_code(3) == VoxDelayTimes::TwoSeconds,
        VoxDelayTimes::from_code(4) == VoxDelayTimes::TwoAndAHalfSeconds,
        VoxDelayTimes::from_code(5) == VoxDelayTimes::ThreeSeconds,
        forall|value: u8| value >= 6 ==> #[trigger] VoxDelayTimes::from_code(value) == VoxDelayTimes::Unknown(value),
        forall|value: u8| #[trigger] VoxDelayTimes::Unknown(value).code() == value,
{
}

/// The code of each named setting, and what other codes decode to.
pub proof fn lemma_scan_mode_codes()
    ensures
        ScanMode::Carrier.code() == 0,
        ScanMode::Time.code() == 1,
        ScanMode::from_code(0) == ScanMode::Carrier,
        ScanMode::from_code(1) == ScanMode::Time,
        forall|value: u8| value >= 2 ==> #[trigger] ScanMode::from_code(value) == ScanMode::Unknown(value),
        forall|value: u8| #[trigger] ScanMode::Unknown(value).code() == value,
{
}

/// The code of each named setting, and what other codes decode to.
pub proof fn lemma_voice_annunciation_codes()
    ensures
        VoiceAnnunciation::Off.code() == 0,
        VoiceAnnunciation::Chinese.code() == 1,
        VoiceAnnunciation::English.code() == 2,
        VoiceAnnunciation::from_code(0) == VoiceAnnunciation::Off,
        VoiceAnnunciation::from_code(1) == VoiceAnnunciation::Chinese,
        VoiceAnnunciation::from_code(2) == VoiceAnnunciation::English,
        forall|value: u8| value >= 3 ==> #[trigger] VoiceAnnunciation::from_code(value) == VoiceAnnunciation::Unknown(value),
        forall|value: u8| #[trigger] VoiceAnnunciation::Unknown(value).code() == value,
{
}

/// The code of each named setting, and what other codes decode to.
pub proof fn lemma_side_key_function_codes()
    ensures
        SideKeyFunction::Off.code() == 0,
        SideKeyFunction::ChannelBroadcast.code() == 1,
        SideKeyFunction::Monitor.code() == 2,
        SideKeyFunction::Scan.code() == 3,
        SideKeyFunction::VoiceSwitch.code() == 4,
        SideKeyFunction::EmergencyAlarm.code() == 5,
        SideKeyFunction::from_code(0) == SideKeyFunction::Off,
        SideKeyFunction::from_code(1) == SideKeyFunction::ChannelBroadcast,
        SideKeyFunction::from_code(2) == SideKeyFunction::Monitor,
        SideKeyFunction::from_code(3) == SideKeyFunction::Scan,
        SideKeyFunction::from_code(4) == SideKeyFunction::VoiceSwitch,
        SideKeyFunction::from_code(5) == SideKeyFunction::EmergencyAlarm,
        forall|value: u8| value >= 6 ==> #[trigger] SideKeyFunction::from_code(value) == SideKeyFunction::Unknown(value),
        forall|value: u8| #[trigger] SideKeyFunction::Unknown(value).code() == value,
{
}

/// The code of each named setting, and what other codes decode to.
pub proof fn lemma_battery_save_codes()
    ensures
        BatterySave::On.code() == 1,
        BatterySave::Off.code() == 0,
        BatterySave::from_code(1) == BatterySave::On,
        BatterySave::from_code(0) == BatterySave::Off,
        forall|value: u8| value >= 2 ==> #[trigger] BatterySave::from_code(value) == BatterySave::Unknown(value),
        forall|value: u8| #[trigger] BatterySave::Unknown(value).code() == value,
{
}

/// The code of each named setting, and what other codes decode to.
pub proof fn lemma_beep_tone_codes()
    ensures
        BeepTone::On.code() == 1,
        BeepTone::Off.code() == 0,
        BeepTone::from_code(1) == BeepTone::On,
        BeepTone::from_code(0) == BeepTone::Off,
        forall|value: u8| value >= 2 ==> #[trigger] BeepTone::from_code(value) == BeepTone::Unknown(value),
        forall|value: u8| #[trigger] BeepTone::Unknown(value).code() == value,
{
}

/// The radio wide settings.
#[derive(Debug, PartialEq, Eq)]
pub struct Settings {
    pub squelch: Squelch,
    pub time_out_timer: TimeOutTimer,
    pub vox: VoxLevel,
    pub vox_delay_time: VoxDelayTimes,
    pub scan_mode: ScanMode,
    pub voice_annunciation: VoiceAnnunciation,
    pub side_key_1_long: SideKeyFunction,
    pub side_key_2_long: SideKeyFunction,
    pub battery_save: BatterySave,
    pub beep_tone: BeepTone,
    pub _unknown5: u8,
    pub _unknown6: u8,
    pub _unknown7: u8,
    pub _unknown8: u8,
    pub _unknown9: u8,
    pub _unknown10: u8,
    /// The block the settings were read from.
    pub data: Vec<u8>,
}

/// The number of bytes in the settings block.
pub const SETTINGS_SIZE: usize = 11;

impl Settings {
    /// The settings block written for these settings. Byte 0 holds the beep tone in
    /// bit 0, battery save in bit 1, voice annunciation in bits 2 and 3, and the scan
    /// mode in bit 4; byte 2 the time out timer in its low and the VOX delay in its
    /// high nibble; byte 4 the second side key in its low and the first in its high
    /// nibble. Each code is cut to the bits of its field.
    pub open spec fn encode(&self) -> Seq<u8> {
        seq![
            (self.beep_tone.code() & 0x01) | ((self.battery_save.code() & 0x01) << 1u8) | ((
            self.voice_annunciation.code() & 0x03) << 2u8) | ((self.scan_mode.code() & 0x01)
                << 4u8),
            self.squelch.code(),
            (self.time_out_timer.code() & 0x0F) | ((self.vox_delay_time.code() & 0x0F) << 4u8),
            self.vox.code(),
            (self.side_key_2_long.code() & 0x0F) | ((self.side_key_1_long.code() & 0x0F) << 4u8),
            self._unknown5,
            self._unknown6,
            self._unknown7,
            self._unknown8,
            self._unknown9,
            self._unknown10,
        ]
    }

    /// Whether these are the settings read from a block. The scan mode is read from
    /// bit 6 of byte 0, the other fields from where `encode` writes them; `data` keeps
    /// the whole block.
    pub open spec fn is_decoded_from(&self, bytes: Seq<u8>) -> bool {
        &&& self.beep_tone == BeepTone::from_code(bytes[0] & 0x01)
        &&& self.battery_save == BatterySave::from_code((bytes[0] & 0x02) >> 1u8)
        &&& self.voice_annunciation == VoiceAnnunciation::from_code((bytes[0] & 0x0C) >> 2u8)
        &&& self.scan_mode == ScanMode::from_code((bytes[0] & 0x40) >> 6u8)
        &&& self.squelch == Squelch::from_code(bytes[1])
        &&& self.time_out_timer == TimeOutTimer::from_code(bytes[2] & 0x0F)
        &&& self.vox_delay_time == VoxDelayTimes::from_code((bytes[2] & 0xF0) >> 4u8)
        &&& self.vox == VoxLevel::from_code(bytes[3])
        &&& self.side_key_1_long == SideKeyFunction::from_code((bytes[4] & 0xF0) >> 4u8)
        &&& self.side_key_2_long == SideKeyFunction::from_code(bytes[4] & 0x0F)
        &&& self._unknown5 == bytes[5]
        &&& self._unknown6 == bytes[6]
        &&& self._unknown7 == bytes[7]
        &&& self._unknown8 == bytes[8]
        &&& self._unknown9 == bytes[9]
        &&& self._unknown10 == bytes[10]
        &&& self.data@ == bytes
    }

    /// Reads settings from a block of at least eleven bytes; this never fails.
    pub fn try_from(value: &[u8]) -> (result: Result<Settings, ()>)
        requires
            value@.len() >= SETTINGS_SIZE,
        ensures
            result is Ok,
            result.unwrap().is_decoded_from(value@),
    {
        Ok(
            Settings {
                beep_tone: BeepTone::from(value[0] & 0x01),
                battery_save: BatterySave::from((value[0] & 0x02) >> 1u8),
                voice_annunciation: VoiceAnnunciation::from((value[0] & 0x0C) >> 2u8),
                scan_mode: ScanMode::from((value[0] & 0x40) >> 6u8),
                squelch: Squelch::from(value[1]),
                time_out_timer: TimeOutTimer::from(value[2] & 0x0F),
                vox_delay_time: VoxDelayTimes::from((value[2] & 0xF0) >> 4u8),
                vox: VoxLevel::from(value[3]),
                side_key_1_long: SideKeyFunction::from((value[4] & 0xF0) >> 4u8),
                side_key_2_long: SideKeyFunction::from(value[4] & 0x0F),
                _unknown5: value[5],
                _unknown6: value[6],
                _unknown7: value[7],
                _unknown8: value[8],
                _unknown9: value[9],
                _unknown10: value[10],
                data: vstd::slice::slice_to_vec(value),
            },
        )
    }

    /// The settings block for these settings.
    pub fn into_bytes(self) -> (bytes: Vec<u8>)
        ensures
            bytes@ == self.encode(),
    {
        let ghost expected = self.encode();
        let bytes: Vec<u8> = vec![
            (u8::from(self.beep_tone) & 0x01) | ((u8::from(self.battery_save) & 0x01) << 1u8) | ((
            u8::from(self.voice_annunciation) & 0x03) << 2u8) | ((u8::from(self.scan_mode) & 0x01)
                << 4u8),
            u8::from(self.squelch),
            (u8::from(self.time_out_timer) & 0x0F) | ((u8::from(self.vox_delay_time) & 0x0F)
                << 4u8),
            u8::from(self.vox),
            (u8::from(self.side_key_2_long) & 0x0F) | ((u8::from(self.side_key_1_long) & 0x0F)
                << 4u8),
            self._unknown5,
            self._unknown6,
            self._unknown7,
            self._unknown8,
            self._unknown9,
            self._unknown10,
        ];
        assert(bytes@ =~= expected);
        bytes
    }
}

impl Default for Settings {
    fn default() -> (settings: Self)
        ensures
            settings.squelch == Squelch::Level3,
            settings.time_out_timer == TimeOutTimer::Off,
            settings.vox == VoxLevel::Off,
            settings.vox_delay_time == VoxDelayTimes::HalfSecond,
            settings.scan_mode == ScanMode::Carrier,
            settings.voice_annunciation == VoiceAnnunciation::Off,
            settings.side_key_1_long == SideKeyFunction::Off,
            settings.side_key_2_long == SideKeyFunction::Off,
            settings.battery_save == BatterySave::On,
            settings.beep_tone == BeepTone::On,
            settings._unknown5 == 0,
            settings._unknown6 == 0,
            settings._unknown7 == 0,
            settings._unknown8 == 0,
            settings._unknown9 == 0,
            settings._unknown10 == 0,
            settings.data@ == Seq::<u8>::empty(),
    {
        Settings {
            squelch: Squelch::default(),
            time_out_timer: TimeOutTimer::default(),
            vox: VoxLevel::default(),
            vox_delay_time: VoxDelayTimes::default(),
            scan_mode: ScanMode::default(),
            voice_annunciation: VoiceAnnunciation::default(),
            side_key_1_long: SideKeyFunction::default(),
            side_key_2_long: SideKeyFunction::default(),
            battery_save: BatterySave::default(),
            beep_tone: BeepTone::default(),
            _unknown5: 0,
            _unknown6: 0,
            _unknown7: 0,
            _unknown8: 0,
            _unknown9: 0,
            _unknown10: 0,
            data: Vec::new(),
        }
    }
}

/// Settings read from a block and written back give the block's first eleven bytes,
/// except in byte 0: its high four bits are dropped, and the scan mode, read from bit
/// 6, is written to bit 4.
pub proof fn lemma_settings_block_round_trip(settings: Settings, bytes: Seq<u8>)
    requires
        bytes.len() >= SETTINGS_SIZE,
        settings.is_decoded_from(bytes),
    ensures
        settings.encode() == bytes.subrange(0, 11).update(
            0,
            (bytes[0] & 0x0F) | ((bytes[0] & 0x40) >> 2u8),
        ),
{
    let (b0, b2, b4) = (bytes[0], bytes[2], bytes[4]);
    lemma_beep_tone_code_round_trip(b0 & 0x01, settings.beep_tone);
    lemma_battery_save_code_round_trip((b0 & 0x02) >> 1u8, settings.battery_save);
    lemma_voice_annunciation_code_round_trip((b0 & 0x0C) >> 2u8, settings.voice_annunciation);
    lemma_scan_mode_code_round_trip((b0 & 0x40) >> 6u8, settings.scan_mode);
    lemma_squelch_code_round_trip(bytes[1], settings.squelch);
    lemma_time_out_timer_code_round_trip(b2 & 0x0F, settings.time_out_timer);
    lemma_vox_delay_times_code_round_trip((b2 & 0xF0) >> 4u8, settings.vox_delay_time);
    lemma_vox_level_code_round_trip(bytes[3], settings.vox);
    lemma_side_key_function_code_round_trip((b4 & 0xF0) >> 4u8, settings.side_key_1_long);
    lemma_side_key_function_code_round_trip(b4 & 0x0F, settings.side_key_2_long);
    assert(((b0 & 0x01) & 0x01) | ((((b0 & 0x02) >> 1u8) & 0x01) << 1u8) | ((((b0 & 0x0C) >> 2u8)
        & 0x03) << 2u8) | ((((b0 & 0x40) >> 6u8) & 0x01) << 4u8) == (b0 & 0x0F) | ((b0 & 0x40)
        >> 2u8)) by (bit_vector);
    assert(((b2 & 0x0F) & 0x0F) | ((((b2 & 0xF0) >> 4u8) & 0x0F) << 4u8) == b2) by (bit_vector);
    assert(((b4 & 0x0F) & 0x0F) | ((((b4 & 0xF0) >> 4u8) & 0x0F) << 4u8) == b4) by (bit_vector);
    assert(settings.encode() =~= bytes.subrange(0, 11).update(
        0,
        (bytes[0] & 0x0F) | ((bytes[0] & 0x40) >> 2u8),
    ));
}

/// A block whose byte 0 has its high four bits clear is written back unchanged by
/// the settings read from it.
pub proof fn lemma_settings_read_write(settings: Settings, bytes: Seq<u8>)
    requires
        bytes.len() >= SETTINGS_SIZE,
        bytes[0] < 0x10,
        settings.is_decoded_from(bytes),
    ensures
        settings.encode() == bytes.subrange(0, 11),
{
    lemma_settings_block_round_trip(settings, bytes);
    let b0 = bytes[0];
    assert(b0 < 0x10 ==> (b0 & 0x0F) | ((b0 & 0x40) >> 2u8) == b0) by (bit_vector);
    assert(settings.encode() =~= bytes.subrange(0, 11));
}

/// Settings whose values are canonical and fit their fields are read back from the
/// block written for them, all but the scan mode: it is written to bit 4 of byte 0
/// and read from bit 6, so it always reads back as `Carrier`.
pub proof fn lemma_settings_write_read(settings: Settings, read: Settings)
    requires
        settings.beep_tone.is_canonical() && settings.beep_tone.code() <= 1,
        settings.battery_save.is_canonical() && settings.battery_save.code() <= 1,
        settings.voice_annunciation.is_canonical() && settings.voice_annunciation.code() <= 3,
        settings.squelch.is_canonical(),
        settings.time_out_timer.is_canonical() && settings.time_out_timer.code() <= 15,
        settings.vox_delay_time.is_canonical() && settings.vox_delay_time.code() <= 15,
        settings.vox.is_canonical(),
        settings.side_key_1_long.is_canonical() && settings.side_key_1_long.code() <= 15,
        settings.side_key_2_long.is_canonical() && settings.side_key_2_long.code() <= 15,
        read.is_decoded_from(settings.encode()),
    ensures
        read.beep_tone == settings.beep_tone,
        read.battery_save == settings.battery_save,
        read.voice_annunciation == settings.voice_annunciation,
        read.scan_mode == ScanMode::Carrier,
        read.squelch == settings.squelch,
        read.time_out_timer == settings.time_out_timer,
        read.vox_delay_time == settings.vox_delay_time,
        read.vox == settings.vox,
        read.side_key_1_long == settings.side_key_1_long,
        read.side_key_2_long == settings.side_key_2_long,
        read._unknown5 == settings._unknown5,
        read._unknown6 == settings._unknown6,
        read._unknown7 == settings._unknown7,
        read._unknown8 == settings._unknown8,
        read._unknown9 == settings._unknown9,
        read._unknown10 == settings._unknown10,
{
    let (beep, battery, voice, scan) = (
        settings.beep_tone.code(),
        settings.battery_save.code(),
        settings.voice_annunciation.code(),
        settings.scan_mode.code(),
    );
    let (timer, delay) = (settings.time_out_timer.code(), settings.vox_delay_time.code());
    let (key1, key2) = (settings.side_key_1_long.code(), settings.side_key_2_long.code());
    assert({
        let b0 = (beep & 0x01) | ((battery & 0x01) << 1u8) | ((voice & 0x03) << 2u8) | ((scan
            & 0x01) << 4u8);
        beep <= 1 && battery <= 1 && voice <= 3 ==> {
            &&& b0 & 0x01 == beep
            &&& (b0 & 0x02) >> 1u8 == battery
            &&& (b0 & 0x0C) >> 2u8 == voice
            &&& (b0 & 0x40) >> 6u8 == 0
        }
    }) by (bit_vector);
    assert({
        let b2 = (timer & 0x0F) | ((delay & 0x0F) << 4u8);
        timer <= 15 && delay <= 15 ==> b2 & 0x0F == timer && (b2 & 0xF0) >> 4u8 == delay
    }) by (bit_vector);
    assert({
        let b4 = (key2 & 0x0F) | ((key1 & 0x0F) << 4u8);
        key1 <= 15 && key2 <= 15 ==> b4 & 0x0F == key2 && (b4 & 0xF0) >> 4u8 == key1
    }) by (bit_vector);
    lemma_beep_tone_code_round_trip(0, settings.beep_tone);
    lemma_battery_save_code_round_trip(0, settings.battery_save);
    lemma_voice_annunciation_code_round_trip(0, settings.voice_annunciation);
    lemma_squelch_code_round_trip(0, settings.squelch);
    lemma_time_out_timer_code_round_trip(0, settings.time_out_timer);
    lemma_vox_delay_times_code_round_trip(0, settings.vox_delay_time);
    lemma_vox_level_code_round_trip(0, settings.vox);
    lemma_side_key_function_code_round_trip(0, settings.side_key_1_long);
    lemma_side_key_function_code_round_trip(0, settings.side_key_2_long);
}

/// Where settings read from a block come from: beep tone from bit 0 of byte 0,
/// battery save from bit 1, voice annunciation from bits 2 and 3, scan mode from bit
/// 6; squelch from byte 1; time out timer from the low and VOX delay from the high
/// nibble of byte 2; VOX from byte 3; the second side key from the low and the first
/// from the high nibble of byte 4; the unknown bytes from bytes 5 to 10.
pub proof fn lemma_settings_layout(settings: Settings, bytes: Seq<u8>)
    requires
        bytes.len() >= SETTINGS_SIZE,
        settings.is_decoded_from(bytes),
    ensures
        settings.beep_tone.code() == bytes[0] % 2,
        settings.battery_save.code() == bytes[0] / 2 % 2,
        settings.voice_annunciation.code() == bytes[0] / 4 % 4,
        settings.scan_mode.code() == bytes[0] / 64 % 2,
        settings.squelch.code() == bytes[1],
        settings.time_out_timer.code() == bytes[2] % 16,
        settings.vox_delay_time.code() == bytes[2] / 16,
        settings.vox.code() == bytes[3],
        settings.side_key_1_long.code() == bytes[4] / 16,
        settings.side_key_2_long.code() == bytes[4] % 16,
        settings._unknown5 == bytes[5] && settings._unknown6 == bytes[6] && settings._unknown7
            == bytes[7],
        settings._unknown8 == bytes[8] && settings._unknown9 == bytes[9] && settings._unknown10
            == bytes[10],
        settings.data@ == bytes,
{
    let (b0, b2, b4) = (bytes[0], bytes[2], bytes[4]);
    lemma_beep_tone_code_round_trip(b0 & 0x01, settings.beep_tone);
    lemma_battery_save_code_round_trip((b0 & 0x02) >> 1u8, settings.battery_save);
    lemma_voice_annunciation_code_round_trip((b0 & 0x0C) >> 2u8, settings.voice_annunciation);
    lemma_scan_mode_code_round_trip((b0 & 0x40) >> 6u8, settings.scan_mode);
    lemma_squelch_code_round_trip(bytes[1], settings.squelch);
    lemma_time_out_timer_code_round_trip(b2 & 0x0F, settings.time_out_timer);
    lemma_vox_delay_times_code_round_trip((b2 & 0xF0) >> 4u8, settings.vox_delay_time);
    lemma_vox_level_code_round_trip(bytes[3], settings.vox);
    lemma_side_key_function_code_round_trip((b4 & 0xF0) >> 4u8, settings.side_key_1_long);
    lemma_side_key_function_code_round_trip(b4 & 0x0F, settings.side_key_2_long);
    assert(b0 & 0x01 == b0 % 2 && (b0 & 0x02) >> 1u8 == b0 / 2 % 2 && (b0 & 0x0C) >> 2u8 == b0
        / 4 % 4 && (b0 & 0x40) >> 6u8 == b0 / 64 % 2) by (bit_vector);
    assert(b2 & 0x0F == b2 % 16 && (b2 & 0xF0) >> 4u8 == b2 / 16) by (bit_vector);
    assert(b4 & 0x0F == b4 % 16 && (b4 & 0xF0) >> 4u8 == b4 / 16) by (bit_vector);
}

/// Where the block written for settings holds each field: in byte 0 the beep tone
/// in bit 0, battery save in bit 1, voice annunciation in bits 2 and 3, the scan mode
/// in bit 4 and nothing above; squelch in byte 1; in byte 2 the time out timer in the
/// low and the VOX delay in the high nibble; VOX in byte 3; in byte 4 the second side
/// key in the low and the first in the high nibble; the unknown bytes in bytes 5 to
/// 10. Each code is cut to the bits of its field.
pub proof fn lemma_settings_encoding_layout(settings: Settings)
    ensures
        settings.encode().len() == SETTINGS_SIZE,
        settings.encode()[0] % 2 == settings.beep_tone.code() % 2,
        settings.encode()[0] / 2 % 2 == settings.battery_save.code() % 2,
        settings.encode()[0] / 4 % 4 == settings.voice_annunciation.code() % 4,
        settings.encode()[0] / 16 == settings.scan_mode.code() % 2,
        settings.encode()[1] == settings.squelch.code(),
        settings.encode()[2] % 16 == settings.time_out_timer.code() % 16,
        settings.encode()[2] / 16 == settings.vox_delay_time.code() % 16,
        settings.encode()[3] == settings.vox.code(),
        settings.encode()[4] % 16 == settings.side_key_2_long.code() % 16,
        settings.encode()[4] / 16 == settings.side_key_1_long.code() % 16,
        settings.encode()[5] == settings._unknown5 && settings.encode()[6] == settings._unknown6
            && settings.encode()[7] == settings._unknown7,
        settings.encode()[8] == settings._unknown8 && settings.encode()[9] == settings._unknown9
            && settings.encode()[10] == settings._unknown10,
{
    let (beep, battery, voice, scan) = (
        settings.beep_tone.code(),
        settings.battery_save.code(),
        settings.voice_annunciation.code(),
        settings.scan_mode.code(),
    );
    let (timer, delay) = (settings.time_out_timer.code(), settings.vox_delay_time.code());
    let (key1, key2) = (settings.side_key_1_long.code(), settings.side_key_2_long.code());
    assert({
        let b0 = (beep & 0x01) | ((battery & 0x01) << 1u8) | ((voice & 0x03) << 2u8) | ((scan
            & 0x01) << 4u8);
        &&& b0 % 2 == beep % 2
        &&& b0 / 2 % 2 == battery % 2
        &&& b0 / 4 % 4 == voice % 4
        &&& b0 / 16 == scan % 2
    }) by (bit_vector);
    assert({
        let b2 = (timer & 0x0F) | ((delay & 0x0F) << 4u8);
        b2 % 16 == timer % 16 && b2 / 16 == delay % 16
    }) by (bit_vector);
    assert({
        let b4 = (key2 & 0x0F) | ((key1 & 0x0F) << 4u8);
        b4 % 16 == key2 % 16 && b4 / 16 == key1 % 16
    }) by (bit_vector);
}

} // verus!
