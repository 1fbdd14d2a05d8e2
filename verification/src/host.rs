//! The facts of a report: what the caller knows of the machine, what the
//! operating system says of itself, and the time as a text.
//!
//! The functions that ask `os_info` and `chrono` are believed, not proved.

use vstd::prelude::*;
use crate::text::text_of;

verus! {

/// What `os_info` knows of the operating system. Nothing of it is read but
/// through the two functions below.
#[verifier::external_type_specification]
#[verifier::external_body]
pub struct ExSystemInfo(os_info::Info);

/// What `os_info::get` reports of the operating system. It depends on the
/// machine: nothing is claimed of it.
#[verifier::external_body]
pub(crate) fn system_info() -> (info: os_info::Info) {
    os_info::get()
}

/// The name of the operating system: `os_info::Info::os_type`, as it prints
/// itself. Nothing is claimed of the text.
#[verifier::external_body]
pub(crate) fn system_name(info: &os_info::Info) -> (name: String) {
    info.os_type().to_string()
}

/// The version of the operating system: `os_info::Info::version`, as it
/// prints itself. Nothing is claimed of the text.
#[verifier::external_body]
pub(crate) fn system_version(info: &os_info::Info) -> (version: String) {
    info.version().to_string()
}

/// The text that `chrono` writes for the moment `seconds` seconds and
/// `nanoseconds` nanoseconds after the beginning of 1970 in UTC, or `None`
/// where `chrono` has no such moment.
pub uninterp spec fn utc_text(seconds: i64, nanoseconds: u32) -> Option<Seq<char>>;

/// The moment `seconds` seconds and `nanoseconds` nanoseconds after the
/// beginning of 1970 in UTC, made by `chrono::DateTime::from_timestamp` and
/// written by `DateTime::to_rfc3339`.
///
/// The result depends on the two numbers alone and is given the name
/// `utc_text`. `from_timestamp` gives `None` for a moment out of its range
/// and panics on none; `to_rfc3339` always writes a date, so the text is not
/// empty. No more is claimed of it.
#[verifier::external_body]
pub(crate) fn utc_time(seconds: i64, nanoseconds: u32) -> (time: Option<String>)
    ensures
        match time {
            Some(text) => utc_text(seconds, nanoseconds) == Some(text@) && text@.len() > 0,
            None => utc_text(seconds, nanoseconds) is None,
        },
{
    match chrono::DateTime::from_timestamp(seconds, nanoseconds) {
        Some(moment) => Some(moment.to_rfc3339()),
        None => None,
    }
}

/// What a clock shows: the time since the beginning of 1970 in UTC.
#[derive(Clone, Copy, Debug, PartialEq, Eq, Structural)]
pub struct ClockReading {
    pub seconds: u64,
    pub nanoseconds: u32,
}

/// The time of a report for what the clock showed: the text of that moment,
/// or nothing where the clock could not be read or shows a moment that
/// cannot be written.
pub open spec fn timestamp_text(clock: Option<ClockReading>) -> Option<Seq<char>> {
    match clock {
        Some(reading) => if reading.seconds <= i64::MAX {
            utc_text(reading.seconds as i64, reading.nanoseconds)
        } else {
            None
        },
        None => None,
    }
}

/// The time of a report for what the clock showed. A text that is given is
/// not empty.
pub fn timestamp(clock: Option<ClockReading>) -> (time: Option<String>)
    ensures
        text_of(time) == timestamp_text(clock),
        time matches Some(text) ==> text@.len() > 0,
{
    match clock {
        Some(reading) => {
            if reading.seconds <= 9_223_372_036_854_775_807u64 {
                utc_time(reading.seconds as i64, reading.nanoseconds)
            } else {
                None
            }
        },
        None => None,
    }
}

/// What a report says of the machine and of the program.
#[derive(Clone, Debug, PartialEq, Eq)]
pub struct HostFacts {
    /// The version of this program.
    pub app_version: String,
    /// The name of the operating system.
    pub system_name: String,
    /// The version of the operating system.
    pub system_version: String,
    /// The name of the host, where it could be found.
    pub host_name: Option<String>,
    /// The version of the editor, where it could be looked up.
    pub editor_version: Option<String>,
    /// The time of the report in UTC, where the clock could be read.
    pub time: Option<String>,
}

/// The facts of a report as texts.
pub struct Facts {
    pub app_version: Seq<char>,
    pub system_name: Seq<char>,
    pub system_version: Seq<char>,
    pub host_name: Option<Seq<char>>,
    pub editor_version: Option<Seq<char>>,
    pub time: Option<Seq<char>>,
}

impl View for HostFacts {
    type V = Facts;

    open spec fn view(&self) -> Facts {
        Facts {
            app_version: self.app_version@,
            system_name: self.system_name@,
            system_version: self.system_version@,
            host_name: text_of(self.host_name),
            editor_version: text_of(self.editor_version),
            time: text_of(self.time),
        }
    }
}

/// Gathers the facts of a report. The version of the program, the name of
/// the host, the editor's version and what the clock showed are the
/// caller's, each as far as the caller could find it; the operating system
/// is asked for here, and nothing is promised of its name and version.
pub fn observe(
    app_version: String,
    host_name: Option<String>,
    editor_version: Option<String>,
    clock: Option<ClockReading>,
) -> (facts: HostFacts)
    ensures
        facts@.app_version == app_version@,
        facts@.host_name == text_of(host_name),
        facts@.editor_version == text_of(editor_version),
        facts@.time == timestamp_text(clock),
        facts@.time matches Some(time) ==> time.len() > 0,
{
    let info = system_info();
    HostFacts {
        app_version,
        system_name: system_name(&info),
        system_version: system_version(&info),
        host_name,
        editor_version,
        time: timestamp(clock),
    }
}

} // verus!
