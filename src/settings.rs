use vstd::prelude::*;

use crate::decimal::{decimal_i32, decimal_i64, decimal_u64, parse_i32, parse_i64, parse_u64};

verus! {

/// The numbers the program runs with.
#[derive(Debug, Clone, Copy, PartialEq, Eq, Structural)]
pub struct Settings {
    /// Changed lines above which the alert rings.
    pub threshold: i32,
    /// Milliseconds between two samples of the change metric.
    pub git_update_time: u64,
    /// Seconds that a snooze lasts.
    pub snooze_length: i64,
}

pub const DEFAULT_THRESHOLD: i32 = 100;

pub const DEFAULT_UPDATE_TIME: u64 = 5000;

pub const DEFAULT_SNOOZE_MINUTES: i64 = 5;

/// Why the settings could not be made.
#[derive(Debug, Clone, Copy, PartialEq, Eq, Structural)]
pub enum SettingsError {
    /// The first argument is no update time.
    BadUpdateTime,
    /// The second argument is no threshold.
    BadThreshold,
    /// The snooze length in seconds does not fit an `i64`.
    SnoozeTooLong,
    /// The threshold is zero or below.
    NonPositiveThreshold,
    /// The snooze length is zero or below.
    NonPositiveSnooze,
}

pub open spec fn text_or_empty(t: Option<String>) -> Seq<char> {
    match t {
        Some(s) => s@,
        None => Seq::empty(),
    }
}

pub open spec fn value_or<T>(p: Option<T>, d: T) -> T {
    match p {
        Some(v) => v,
        None => d,
    }
}

/// The numbers read from the configuration values `threshold`, `interval`
/// (milliseconds) and `snooze_minutes`, each replaced by its default when
/// absent or unreadable, and then from the command line `args` (program name
/// first): an update time, then a threshold, override the configuration.
pub open spec fn spec_read_settings(
    threshold: Option<String>,
    interval: Option<String>,
    snooze_minutes: Option<String>,
    args: Seq<String>,
) -> Result<Settings, SettingsError> {
    let minutes = value_or(decimal_i64(text_or_empty(snooze_minutes)), DEFAULT_SNOOZE_MINUTES);
    if !(i64::MIN <= minutes * 60 <= i64::MAX) {
        Err(SettingsError::SnoozeTooLong)
    } else {
        let base = Settings {
            threshold: value_or(decimal_i32(text_or_empty(threshold)), DEFAULT_THRESHOLD),
            git_update_time: value_or(decimal_u64(text_or_empty(interval)), DEFAULT_UPDATE_TIME),
            snooze_length: (minutes * 60) as i64,
        };
        if args.len() <= 1 {
            Ok(base)
        } else {
            match decimal_u64(args[1]@) {
                None => Err(SettingsError::BadUpdateTime),
                Some(time) => if args.len() == 2 {
                    Ok(Settings { git_update_time: time, ..base })
                } else {
                    match decimal_i32(args[2]@) {
                        None => Err(SettingsError::BadThreshold),
                        Some(t) => Ok(Settings { git_update_time: time, threshold: t, ..base }),
                    }
                },
            }
        }
    }
}

/// The settings read as `spec_read_settings` says, accepted only with a
/// positive threshold and a positive snooze length.
pub open spec fn spec_settings(
    threshold: Option<String>,
    interval: Option<String>,
    snooze_minutes: Option<String>,
    args: Seq<String>,
) -> Result<Settings, SettingsError> {
    match spec_read_settings(threshold, interval, snooze_minutes, args) {
        Ok(s) => if s.threshold <= 0 {
            Err(SettingsError::NonPositiveThreshold)
        } else if s.snooze_length <= 0 {
            Err(SettingsError::NonPositiveSnooze)
        } else {
            Ok(s)
        },
        Err(e) => Err(e),
    }
}

fn read_i32(t: &Option<String>) -> (r: Option<i32>)
    ensures
        r == decimal_i32(text_or_empty(*t)),
{
    match t {
        Some(s) => parse_i32(s.as_str()),
        None => None,
    }
}

fn read_u64(t: &Option<String>) -> (r: Option<u64>)
    ensures
        r == decimal_u64(text_or_empty(*t)),
{
    match t {
        Some(s) => parse_u64(s.as_str()),
        None => None,
    }
}

fn read_i64(t: &Option<String>) -> (r: Option<i64>)
    ensures
        r == decimal_i64(text_or_empty(*t)),
{
    match t {
        Some(s) => parse_i64(s.as_str()),
        None => None,
    }
}

/// Makes the settings from configuration values and the command line, and
/// refuses a threshold or a snooze length that is not positive.
pub fn resolve_settings(
    threshold: &Option<String>,
    interval: &Option<String>,
    snooze_minutes: &Option<String>,
    args: &Vec<String>,
) -> (r: Result<Settings, SettingsError>)
    ensures
        r == spec_settings(*threshold, *interval, *snooze_minutes, args@),
{
    let s = read_settings(threshold, interval, snooze_minutes, args)?;
    if s.threshold <= 0 {
        Err(SettingsError::NonPositiveThreshold)
    } else if s.snooze_length <= 0 {
        Err(SettingsError::NonPositiveSnooze)
    } else {
        Ok(s)
    }
}

fn read_settings(
    threshold: &Option<String>,
    interval: &Option<String>,
    snooze_minutes: &Option<String>,
    args: &Vec<String>,
) -> (r: Result<Settings, SettingsError>)
    ensures
        r == spec_read_settings(*threshold, *interval, *snooze_minutes, args@),
{
    let minutes = match read_i64(snooze_minutes) {
        Some(m) => m,
        None => DEFAULT_SNOOZE_MINUTES,
    };
    let snooze_length = match minutes.checked_mul(60) {
        Some(l) => l,
        None => {
            return Err(SettingsError::SnoozeTooLong);
        },
    };
    let base = Settings {
        threshold: match read_i32(threshold) {
            Some(t) => t,
            None => DEFAULT_THRESHOLD,
        },
        git_update_time: match read_u64(interval) {
            Some(t) => t,
            None => DEFAULT_UPDATE_TIME,
        },
        snooze_length,
    };
    if args.len() <= 1 {
        return Ok(base);
    }
    let time = match parse_u64(args[1].as_str()) {
        Some(t) => t,
        None => {
            return Err(SettingsError::BadUpdateTime);
        },
    };
    if args.len() == 2 {
        return Ok(Settings { git_update_time: time, ..base });
    }
    match parse_i32(args[2].as_str()) {
        Some(t) => Ok(Settings { git_update_time: time, threshold: t, ..base }),
        None => Err(SettingsError::BadThreshold),
    }
}

} // verus!
