//! How stored setting values that older versions wrote differently are read:
//! activation modes by name or as the old push-to-talk switch, log levels by
//! name or by their old number.
use vstd::prelude::*;
use crate::settings::enums::{ActivationMode, LogLevel};
use crate::text::owned;

verus! {

broadcast use vstd::string::group_string_axioms;

/// Why a stored value names no setting.
#[derive(Debug, Clone, PartialEq, Eq)]
pub enum ValueError {
    /// A name that is none of the variants; holds the name as stored.
    UnknownVariant(String),
    /// A number outside 1..=5; holds the number.
    InvalidValue(u64),
    /// A value of a kind that names no setting (a number where a name or
    /// switch is read, a switch where a level is read, null, a list, an object).
    InvalidType,
}

/// Whether every character of a text is ASCII.
pub open spec fn is_ascii_text(s: Seq<char>) -> bool {
    forall|i: int| 0 <= i < s.len() ==> (#[trigger] s[i] as u32) < 128
}

/// The text with the ASCII capitals `A` to `Z` made `a` to `z`.
pub open spec fn ascii_lowercase(s: Seq<char>) -> Seq<char> {
    s.map_values(|c: char| if 65 <= (c as u32) <= 90 { ((c as u32) + 32) as char } else { c })
}

/// What std's `str::to_lowercase` makes of a text: each character replaced by
/// its Unicode lowercase mapping.
pub uninterp spec fn lowercase(s: Seq<char>) -> Seq<char>;

/// Lowercases a text with std's `str::to_lowercase`, whose result depends on
/// the text alone. The Unicode lowercase mapping of an ASCII character is
/// its ASCII lowercase (`A`–`Z` become `a`–`z`, the rest stay), so an ASCII
/// text comes out as its ASCII lowercase, as std's `to_ascii_lowercase`
/// would give it.
#[verifier::external_body]
fn to_lowercase(s: &str) -> (r: String)
    ensures
        r@ == lowercase(s@),
        is_ascii_text(s@) ==> r@ == ascii_lowercase(s@),
{
    s.to_lowercase()
}

/// The activation mode a lowercase name stands for.
pub open spec fn spec_activation_mode_named(name: Seq<char>) -> Option<ActivationMode> {
    if name == "toggle"@ {
        Some(ActivationMode::Toggle)
    } else if name == "hold"@ {
        Some(ActivationMode::Hold)
    } else if name == "hold_or_toggle"@ {
        Some(ActivationMode::HoldOrToggle)
    } else {
        None
    }
}

/// The activation mode a name stands for, whatever its case.
pub open spec fn spec_activation_mode_from_name(value: Seq<char>) -> Option<ActivationMode> {
    spec_activation_mode_named(lowercase(value))
}

/// The activation mode that a lowercase name stands for.
pub fn activation_mode_named(name: &str) -> (r: Option<ActivationMode>)
    ensures
        r == spec_activation_mode_named(name@),
{
    proof {
        reveal_strlit("toggle");
        reveal_strlit("hold");
        reveal_strlit("hold_or_toggle");
    }
    if crate::text::str_eq(name, "toggle") {
        Some(ActivationMode::Toggle)
    } else if crate::text::str_eq(name, "hold") {
        Some(ActivationMode::Hold)
    } else if crate::text::str_eq(name, "hold_or_toggle") {
        Some(ActivationMode::HoldOrToggle)
    } else {
        None
    }
}

/// Reads a stored activation mode name (`toggle`, `hold` or
/// `hold_or_toggle`, in any case); any other name is an unknown variant.
pub fn activation_mode_from_name(value: &str) -> (r: Result<ActivationMode, ValueError>)
    ensures
        match spec_activation_mode_from_name(value@) {
            Some(m) => r == Ok::<ActivationMode, ValueError>(m),
            None => r matches Err(ValueError::UnknownVariant(v)) && v@ == value@,
        },
        is_ascii_text(value@) ==> spec_activation_mode_from_name(value@) == spec_activation_mode_named(
            ascii_lowercase(value@),
        ),
{
    let lower = to_lowercase(value);
    match activation_mode_named(lower.as_str()) {
        Some(m) => Ok(m),
        None => Err(ValueError::UnknownVariant(owned(value))),
    }
}

/// Reads the push-to-talk switch of older versions: on means hold to record,
/// off means press to toggle.
pub fn activation_mode_from_bool(push_to_talk: bool) -> (r: ActivationMode)
    ensures
        r == (if push_to_talk {
            ActivationMode::Hold
        } else {
            ActivationMode::Toggle
        }),
{
    if push_to_talk {
        ActivationMode::Hold
    } else {
        ActivationMode::Toggle
    }
}

/// The log level a lowercase name stands for.
pub open spec fn spec_log_level_named(name: Seq<char>) -> Option<LogLevel> {
    if name == "trace"@ {
        Some(LogLevel::Trace)
    } else if name == "debug"@ {
        Some(LogLevel::Debug)
    } else if name == "info"@ {
        Some(LogLevel::Info)
    } else if name == "warn"@ {
        Some(LogLevel::Warn)
    } else if name == "error"@ {
        Some(LogLevel::Error)
    } else {
        None
    }
}

/// The log level a name stands for, whatever its case.
pub open spec fn spec_log_level_from_name(value: Seq<char>) -> Option<LogLevel> {
    spec_log_level_named(lowercase(value))
}

/// The log level that a lowercase name stands for.
pub fn log_level_named(name: &str) -> (r: Option<LogLevel>)
    ensures
        r == spec_log_level_named(name@),
{
    proof {
        reveal_strlit("trace");
        reveal_strlit("debug");
        reveal_strlit("info");
        reveal_strlit("warn");
        reveal_strlit("error");
    }
    if crate::text::str_eq(name, "trace") {
        Some(LogLevel::Trace)
    } else if crate::text::str_eq(name, "debug") {
        Some(LogLevel::Debug)
    } else if crate::text::str_eq(name, "info") {
        Some(LogLevel::Info)
    } else if crate::text::str_eq(name, "warn") {
        Some(LogLevel::Warn)
    } else if crate::text::str_eq(name, "error") {
        Some(LogLevel::Error)
    } else {
        None
    }
}

/// Reads a stored log level name (`trace`, `debug`, `info`, `warn` or
/// `error`, in any case); any other name is an unknown variant.
pub fn log_level_from_name(value: &str) -> (r: Result<LogLevel, ValueError>)
    ensures
        match spec_log_level_from_name(value@) {
            Some(l) => r == Ok::<LogLevel, ValueError>(l),
            None => r matches Err(ValueError::UnknownVariant(v)) && v@ == value@,
        },
        is_ascii_text(value@) ==> spec_log_level_from_name(value@) == spec_log_level_named(ascii_lowercase(value@)),
{
    let lower = to_lowercase(value);
    match log_level_named(lower.as_str()) {
        Some(l) => Ok(l),
        None => Err(ValueError::UnknownVariant(owned(value))),
    }
}

/// The log level an old stored number stands for: 1 trace up to 5 error.
pub open spec fn spec_log_level_numbered(value: u64) -> Option<LogLevel> {
    if value == 1 {
        Some(LogLevel::Trace)
    } else if value == 2 {
        Some(LogLevel::Debug)
    } else if value == 3 {
        Some(LogLevel::Info)
    } else if value == 4 {
        Some(LogLevel::Warn)
    } else if value == 5 {
        Some(LogLevel::Error)
    } else {
        None
    }
}

/// Reads a log level stored as a number by older versions: 1 (trace) to 5
/// (error); any other number is an invalid value.
pub fn log_level_from_number(value: u64) -> (r: Result<LogLevel, ValueError>)
    ensures
        match spec_log_level_numbered(value) {
            Some(l) => r == Ok::<LogLevel, ValueError>(l),
            None => r == Err::<LogLevel, ValueError>(ValueError::InvalidValue(value)),
        },
{
    match value {
        1 => Ok(LogLevel::Trace),
        2 => Ok(LogLevel::Debug),
        3 => Ok(LogLevel::Info),
        4 => Ok(LogLevel::Warn),
        5 => Ok(LogLevel::Error),
        _ => Err(ValueError::InvalidValue(value)),
    }
}

/// A stored JSON value as setting parsers read it: a string, a switch, a
/// whole number from 0 up, or anything else (a negative or fractional
/// number, null, a list, an object).
#[derive(Debug, Clone, PartialEq, Eq)]
pub enum StoredScalar {
    Text(String),
    Bool(bool),
    Number(u64),
    Other,
}

/// The name an activation mode is stored under.
pub open spec fn spec_activation_mode_name(m: ActivationMode) -> Seq<char> {
    match m {
        ActivationMode::Toggle => "toggle"@,
        ActivationMode::Hold => "hold"@,
        ActivationMode::HoldOrToggle => "hold_or_toggle"@,
    }
}

/// The name an activation mode is stored under.
pub fn activation_mode_name(m: ActivationMode) -> (r: String)
    ensures
        r@ == spec_activation_mode_name(m),
{
    match m {
        ActivationMode::Toggle => owned("toggle"),
        ActivationMode::Hold => owned("hold"),
        ActivationMode::HoldOrToggle => owned("hold_or_toggle"),
    }
}

/// Reads a stored activation mode: a name in any case, or the old
/// push-to-talk switch; any other kind of value is refused.
pub fn activation_mode_from_stored(value: &StoredScalar) -> (r: Result<ActivationMode, ValueError>)
    ensures
        match value {
            StoredScalar::Text(t) => match spec_activation_mode_from_name(t@) {
                Some(m) => r == Ok::<ActivationMode, ValueError>(m),
                None => r matches Err(ValueError::UnknownVariant(v)) && v@ == t@,
            },
            StoredScalar::Bool(b) => r == Ok::<ActivationMode, ValueError>(
                if *b {
                    ActivationMode::Hold
                } else {
                    ActivationMode::Toggle
                },
            ),
            _ => r == Err::<ActivationMode, ValueError>(ValueError::InvalidType),
        },
        value matches StoredScalar::Text(t) ==> (is_ascii_text(t@) ==> spec_activation_mode_from_name(t@)
            == spec_activation_mode_named(ascii_lowercase(t@))),
{
    match value {
        StoredScalar::Text(t) => activation_mode_from_name(t.as_str()),
        StoredScalar::Bool(b) => Ok(activation_mode_from_bool(*b)),
        _ => Err(ValueError::InvalidType),
    }
}

/// The name a log level is stored under.
pub open spec fn spec_log_level_name(l: LogLevel) -> Seq<char> {
    match l {
        LogLevel::Trace => "trace"@,
        LogLevel::Debug => "debug"@,
        LogLevel::Info => "info"@,
        LogLevel::Warn => "warn"@,
        LogLevel::Error => "error"@,
    }
}

/// The name a log level is stored under.
pub fn log_level_name(l: LogLevel) -> (r: String)
    ensures
        r@ == spec_log_level_name(l),
{
    match l {
        LogLevel::Trace => owned("trace"),
        LogLevel::Debug => owned("debug"),
        LogLevel::Info => owned("info"),
        LogLevel::Warn => owned("warn"),
        LogLevel::Error => owned("error"),
    }
}

/// Reads a stored log level: a name in any case, or an old number from 1
/// to 5; any other kind of value is refused.
pub fn log_level_from_stored(value: &StoredScalar) -> (r: Result<LogLevel, ValueError>)
    ensures
        match value {
            StoredScalar::Text(t) => match spec_log_level_from_name(t@) {
                Some(l) => r == Ok::<LogLevel, ValueError>(l),
                None => r matches Err(ValueError::UnknownVariant(v)) && v@ == t@,
            },
            StoredScalar::Number(n) => match spec_log_level_numbered(*n) {
                Some(l) => r == Ok::<LogLevel, ValueError>(l),
                None => r == Err::<LogLevel, ValueError>(ValueError::InvalidValue(*n)),
            },
            _ => r == Err::<LogLevel, ValueError>(ValueError::InvalidType),
        },
        value matches StoredScalar::Text(t) ==> (is_ascii_text(t@) ==> spec_log_level_from_name(t@)
            == spec_log_level_named(ascii_lowercase(t@))),
{
    match value {
        StoredScalar::Text(t) => log_level_from_name(t.as_str()),
        StoredScalar::Number(n) => log_level_from_number(*n),
        _ => Err(ValueError::InvalidType),
    }
}

/// Each activation mode's stored name is ASCII lowercase and reads back as
/// that mode.
pub proof fn lemma_activation_mode_names_read_back(m: ActivationMode)
    ensures
        is_ascii_text(spec_activation_mode_name(m)),
        spec_activation_mode_named(ascii_lowercase(spec_activation_mode_name(m))) == Some(m),
{
    reveal_strlit("toggle");
    reveal_strlit("hold");
    reveal_strlit("hold_or_toggle");
    let n = spec_activation_mode_name(m);
    assert(ascii_lowercase(n) =~= n);
}

/// Each log level's stored name is ASCII lowercase and reads back as that level.
pub proof fn lemma_log_level_names_read_back(l: LogLevel)
    ensures
        is_ascii_text(spec_log_level_name(l)),
        spec_log_level_named(ascii_lowercase(spec_log_level_name(l))) == Some(l),
{
    reveal_strlit("trace");
    reveal_strlit("debug");
    reveal_strlit("info");
    reveal_strlit("warn");
    reveal_strlit("error");
    let n = spec_log_level_name(l);
    assert(ascii_lowercase(n) =~= n);
    assert("trace"@[0] == 't' && "debug"@[0] == 'd' && "info"@[0] == 'i' && "warn"@[0] == 'w'
        && "error"@[0] == 'e');
}

} // verus!
