use vstd::prelude::*;
use vstd::string::*;

verus! {

/// The operating system family whose conventions pick some defaults.
#[derive(Clone, Copy, Debug, PartialEq, Eq, Structural)]
pub enum Platform {
    MacOs,
    Windows,
    Linux,
    Other,
}

/// How a shortcut starts and stops a recording.
#[derive(Clone, Copy, Debug, PartialEq, Eq, Structural)]
pub enum ActivationMode {
    Toggle,
    Hold,
    HoldOrToggle,
}

impl ActivationMode {
    /// The mode a new installation starts with.
    pub fn default_mode() -> (m: ActivationMode)
        ensures
            m == ActivationMode::HoldOrToggle,
    {
        ActivationMode::HoldOrToggle
    }
}

/// Timeout after which an idle transcription model is unloaded.
#[derive(Clone, Copy, Debug, PartialEq, Eq, Structural)]
pub enum ModelUnloadTimeout {
    Never,
    Immediately,
    Min2,
    Min5,
    Min10,
    Min15,
    Hour1,
    Sec5,
}

/// The number of minutes that a timeout stands for, where it is counted in minutes.
pub open spec fn spec_timeout_minutes(t: ModelUnloadTimeout) -> Option<u64> {
    match t {
        ModelUnloadTimeout::Never => None,
        ModelUnloadTimeout::Immediately => Some(0),
        ModelUnloadTimeout::Min2 => Some(2),
        ModelUnloadTimeout::Min5 => Some(5),
        ModelUnloadTimeout::Min10 => Some(10),
        ModelUnloadTimeout::Min15 => Some(15),
        ModelUnloadTimeout::Hour1 => Some(60),
        ModelUnloadTimeout::Sec5 => Some(0),
    }
}

/// The number of seconds that a timeout stands for.
pub open spec fn spec_timeout_seconds(t: ModelUnloadTimeout) -> Option<u64> {
    match t {
        ModelUnloadTimeout::Never => None,
        ModelUnloadTimeout::Immediately => Some(0),
        ModelUnloadTimeout::Sec5 => Some(5),
        _ => match spec_timeout_minutes(t) {
            Some(m) => Some((m * 60) as u64),
            None => None,
        },
    }
}

impl ModelUnloadTimeout {
    pub fn default_timeout() -> (t: ModelUnloadTimeout)
        ensures
            t == ModelUnloadTimeout::Never,
    {
        ModelUnloadTimeout::Never
    }

    pub fn to_minutes(self) -> (r: Option<u64>)
        ensures
            r == spec_timeout_minutes(self),
    {
        match self {
            ModelUnloadTimeout::Never => None,
            ModelUnloadTimeout::Immediately => Some(0),
            ModelUnloadTimeout::Min2 => Some(2),
            ModelUnloadTimeout::Min5 => Some(5),
            ModelUnloadTimeout::Min10 => Some(10),
            ModelUnloadTimeout::Min15 => Some(15),
            ModelUnloadTimeout::Hour1 => Some(60),
            ModelUnloadTimeout::Sec5 => Some(0),
        }
    }

    pub fn to_seconds(self) -> (r: Option<u64>)
        ensures
            r == spec_timeout_seconds(self),
    {
        match self {
            ModelUnloadTimeout::Never => None,
            ModelUnloadTimeout::Immediately => Some(0),
            ModelUnloadTimeout::Sec5 => Some(5),
            _ => match self.to_minutes() {
                Some(m) => Some(m * 60),
                None => None,
            },
        }
    }
}

/// Every timeout counted in whole minutes lasts sixty times as many seconds.
pub proof fn lemma_seconds_are_sixty_minutes(t: ModelUnloadTimeout)
    requires
        t != ModelUnloadTimeout::Sec5,
    ensures
        match (spec_timeout_minutes(t), spec_timeout_seconds(t)) {
            (Some(m), Some(s)) => s == m * 60,
            (None, None) => true,
            _ => false,
        },
{
}

/// Verbosity of the application log.
#[derive(Clone, Copy, Debug, PartialEq, Eq, Structural)]
pub enum LogLevel {
    Trace,
    Debug,
    Info,
    Warn,
    Error,
}

/// Whether a speech-to-text provider runs on the device or in the cloud.
#[derive(Clone, Copy, Debug, PartialEq, Eq, Structural)]
pub enum SttProviderType {
    Local,
    Cloud,
}

/// Where the recording overlay is shown.
#[derive(Clone, Copy, Debug, PartialEq, Eq, Structural)]
pub enum OverlayPosition {
    Hidden,
    Top,
    Bottom,
    Notch,
}

/// How the transcription is put into the focused application.
#[derive(Clone, Copy, Debug, PartialEq, Eq, Structural)]
pub enum PasteMethod {
    CtrlV,
    Direct,
    NoPaste,
    ShiftInsert,
    CtrlShiftV,
    ExternalScript,
}

/// What happens to the clipboard after pasting.
#[derive(Clone, Copy, Debug, PartialEq, Eq, Structural)]
pub enum ClipboardHandling {
    DontModify,
    CopyToClipboard,
}

/// The key pressed after pasting when auto-submit is on.
#[derive(Clone, Copy, Debug, PartialEq, Eq, Structural)]
pub enum AutoSubmitKey {
    Enter,
    CtrlEnter,
    CmdEnter,
}

/// How long recordings are kept.
#[derive(Clone, Copy, Debug, PartialEq, Eq, Structural)]
pub enum RecordingRetentionPeriod {
    Never,
    PreserveLimit,
    Days3,
    Weeks2,
    Months3,
}

/// Which implementation listens for global shortcuts.
#[derive(Clone, Copy, Debug, PartialEq, Eq, Structural)]
pub enum KeyboardImplementation {
    Tauri,
    HandyKeys,
}

/// The sound set played when a recording starts and stops.
#[derive(Clone, Copy, Debug, PartialEq, Eq, Structural)]
pub enum SoundTheme {
    Marimba,
    Pop,
    Custom,
}

/// The colour theme of the interface.
#[derive(Clone, Copy, Debug, PartialEq, Eq, Structural)]
pub enum AppTheme {
    Dark,
    Light,
    System,
}

/// The tool used to type text on Linux.
#[derive(Clone, Copy, Debug, PartialEq, Eq, Structural)]
pub enum TypingTool {
    Auto,
    Wtype,
    Kwtype,
    Dotool,
    Ydotool,
    Xdotool,
}

/// The period that usage statistics cover.
#[derive(Clone, Copy, Debug, PartialEq, Eq, Structural)]
pub enum StatsDateRange {
    Today,
    ThreeDays,
    Week,
    Month,
    All,
    Custom,
}

impl KeyboardImplementation {
    /// HandyKeys on macOS, where it is well tested; the Tauri implementation elsewhere.
    pub fn default_for(platform: Platform) -> (k: KeyboardImplementation)
        ensures
            k == (if platform == Platform::MacOs {
                KeyboardImplementation::HandyKeys
            } else {
                KeyboardImplementation::Tauri
            }),
    {
        match platform {
            Platform::MacOs => KeyboardImplementation::HandyKeys,
            _ => KeyboardImplementation::Tauri,
        }
    }
}

impl PasteMethod {
    /// Direct typing on Linux; Ctrl+V elsewhere.
    pub fn default_for(platform: Platform) -> (m: PasteMethod)
        ensures
            m == (if platform == Platform::Linux {
                PasteMethod::Direct
            } else {
                PasteMethod::CtrlV
            }),
    {
        match platform {
            Platform::Linux => PasteMethod::Direct,
            _ => PasteMethod::CtrlV,
        }
    }
}

impl ClipboardHandling {
    pub fn default_handling() -> (c: ClipboardHandling)
        ensures
            c == ClipboardHandling::DontModify,
    {
        ClipboardHandling::DontModify
    }
}

impl AutoSubmitKey {
    pub fn default_key() -> (k: AutoSubmitKey)
        ensures
            k == AutoSubmitKey::Enter,
    {
        AutoSubmitKey::Enter
    }
}

impl AppTheme {
    pub fn default_theme() -> (t: AppTheme)
        ensures
            t == AppTheme::System,
    {
        AppTheme::System
    }
}

impl TypingTool {
    pub fn default_tool() -> (t: TypingTool)
        ensures
            t == TypingTool::Auto,
    {
        TypingTool::Auto
    }
}

impl StatsDateRange {
    pub fn default_range() -> (r: StatsDateRange)
        ensures
            r == StatsDateRange::Month,
    {
        StatsDateRange::Month
    }
}

/// The name of a sound theme as it appears in resource file names.
pub open spec fn spec_sound_theme_name(t: SoundTheme) -> Seq<char> {
    match t {
        SoundTheme::Marimba => "marimba"@,
        SoundTheme::Pop => "pop"@,
        SoundTheme::Custom => "custom"@,
    }
}

/// The resource path of a theme's sound for the start or the stop of a recording.
pub open spec fn spec_sound_path(t: SoundTheme, start: bool) -> Seq<char> {
    "resources/"@ + spec_sound_theme_name(t) + (if start {
        "_start.wav"@
    } else {
        "_stop.wav"@
    })
}

impl SoundTheme {
    fn as_str(&self) -> (s: &'static str)
        ensures
            s@ == spec_sound_theme_name(*self),
    {
        match self {
            SoundTheme::Marimba => "marimba",
            SoundTheme::Pop => "pop",
            SoundTheme::Custom => "custom",
        }
    }

    pub fn to_start_path(self) -> (p: String)
        ensures
            p@ == spec_sound_path(self, true),
    {
        let p = String::from_str("resources/");
        let p = p.concat(self.as_str());
        p.concat("_start.wav")
    }

    pub fn to_stop_path(self) -> (p: String)
        ensures
            p@ == spec_sound_path(self, false),
    {
        let p = String::from_str("resources/");
        let p = p.concat(self.as_str());
        p.concat("_stop.wav")
    }
}

/// A theme's start sound and stop sound lie at different paths.
pub proof fn lemma_start_and_stop_paths_differ(t: SoundTheme)
    ensures
        spec_sound_path(t, true) != spec_sound_path(t, false),
{
    reveal_strlit("_start.wav");
    reveal_strlit("_stop.wav");
    let a = spec_sound_path(t, true);
    let b = spec_sound_path(t, false);
    if a == b {
        assert(a.len() == b.len());
    }
}

} // verus!
