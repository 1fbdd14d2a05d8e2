//! The diagnostic report that the client sends about a fault.

use vstd::prelude::*;
use vstd::string::StringExecFns;
use crate::host::Facts;
use crate::host::HostFacts;
use crate::text::text_of;
use crate::text::texts_of;

verus! {

/// A diagnostic report. The key and the screenshots are optional; every
/// other field is required.
#[derive(Clone, Debug, PartialEq, Eq)]
pub struct BugReportRequest {
    pub api_key: Option<String>,
    pub app_version: String,
    pub os_version: String,
    pub device_model: String,
    pub cursor_version: String,
    pub bug_description: String,
    pub occurrence_time: String,
    pub screenshot_urls: Option<Vec<String>>,
    pub severity: String,
}

/// A diagnostic report as texts.
pub struct BugReport {
    pub api_key: Option<Seq<char>>,
    pub app_version: Seq<char>,
    pub os_version: Seq<char>,
    pub device_model: Seq<char>,
    pub cursor_version: Seq<char>,
    pub bug_description: Seq<char>,
    pub occurrence_time: Seq<char>,
    pub screenshot_urls: Option<Seq<Seq<char>>>,
    pub severity: Seq<char>,
}

/// The required fields of a report.
#[derive(Clone, Copy, Debug, PartialEq, Eq, Structural)]
pub enum ReportField {
    AppVersion,
    OsVersion,
    DeviceModel,
    CursorVersion,
    BugDescription,
    OccurrenceTime,
    Severity,
}

impl View for BugReportRequest {
    type V = BugReport;

    open spec fn view(&self) -> BugReport {
        BugReport {
            api_key: text_of(self.api_key),
            app_version: self.app_version@,
            os_version: self.os_version@,
            device_model: self.device_model@,
            cursor_version: self.cursor_version@,
            bug_description: self.bug_description@,
            occurrence_time: self.occurrence_time@,
            screenshot_urls: texts_of(self.screenshot_urls),
            severity: self.severity@,
        }
    }
}

/// What stands in a report for a fact that could not be found.
pub open spec fn unknown() -> Seq<char> {
    "Unknown"@
}

/// The name and the version of the operating system in one text.
pub open spec fn system_label(name: Seq<char>, version: Seq<char>) -> Seq<char> {
    name + " "@ + version
}

/// `found`, or the placeholder where nothing was found.
pub open spec fn or_unknown(found: Option<Seq<char>>) -> Seq<char> {
    match found {
        Some(text) => text,
        None => unknown(),
    }
}

/// The editor's version in a report: the one that the caller gives, else
/// the one that was looked up, else the placeholder.
pub open spec fn editor_version(given: Option<Seq<char>>, looked_up: Option<Seq<char>>) -> Seq<
    char,
> {
    match given {
        Some(text) => text,
        None => or_unknown(looked_up),
    }
}

/// The report on a fault from the facts `facts`.
pub open spec fn assembled(
    facts: Facts,
    description: Seq<char>,
    severity: Seq<char>,
    api_key: Option<Seq<char>>,
    screenshot_urls: Option<Seq<Seq<char>>>,
    given_version: Option<Seq<char>>,
) -> BugReport {
    BugReport {
        api_key,
        app_version: facts.app_version,
        os_version: system_label(facts.system_name, facts.system_version),
        device_model: or_unknown(facts.host_name),
        cursor_version: editor_version(given_version, facts.editor_version),
        bug_description: description,
        occurrence_time: or_unknown(facts.time),
        screenshot_urls,
        severity,
    }
}

impl BugReport {
    /// The first required field that is empty, in the order of the fields.
    pub open spec fn first_empty(self) -> Option<ReportField> {
        if self.app_version.len() == 0 {
            Some(ReportField::AppVersion)
        } else if self.os_version.len() == 0 {
            Some(ReportField::OsVersion)
        } else if self.device_model.len() == 0 {
            Some(ReportField::DeviceModel)
        } else if self.cursor_version.len() == 0 {
            Some(ReportField::CursorVersion)
        } else if self.bug_description.len() == 0 {
            Some(ReportField::BugDescription)
        } else if self.occurrence_time.len() == 0 {
            Some(ReportField::OccurrenceTime)
        } else if self.severity.len() == 0 {
            Some(ReportField::Severity)
        } else {
            None
        }
    }

    /// Whether the report may be sent: no required field is empty.
    pub open spec fn complete(self) -> bool {
        self.first_empty() is None
    }
}

/// Assembles the report on a fault. This never fails: where the host's
/// name, the editor's version or the time is not known, the report says
/// `Unknown`.
pub fn assemble(
    facts: HostFacts,
    description: String,
    severity: String,
    api_key: Option<String>,
    screenshot_urls: Option<Vec<String>>,
    editor_version_override: Option<String>,
) -> (report: BugReportRequest)
    ensures
        report@ == assembled(
            facts@,
            description@,
            severity@,
            text_of(api_key),
            texts_of(screenshot_urls),
            text_of(editor_version_override),
        ),
{
    let mut os_version = facts.system_name;
    os_version.append(" ");
    os_version.append(facts.system_version.as_str());
    let device_model = match facts.host_name {
        Some(name) => name,
        None => String::from_str("Unknown"),
    };
    let cursor_version = match editor_version_override {
        Some(version) => version,
        None => match facts.editor_version {
            Some(version) => version,
            None => String::from_str("Unknown"),
        },
    };
    let occurrence_time = match facts.time {
        Some(time) => time,
        None => String::from_str("Unknown"),
    };
    BugReportRequest {
        api_key,
        app_version: facts.app_version,
        os_version,
        device_model,
        cursor_version,
        bug_description: description,
        occurrence_time,
        screenshot_urls,
        severity,
    }
}

impl BugReportRequest {
    /// Whether the editor's version has to be looked up for a report: only
    /// where the caller gives none.
    pub fn needs_editor_lookup(editor_version_override: &Option<String>) -> (needed: bool)
        ensures
            needed == (editor_version_override is None),
    {
        editor_version_override.is_none()
    }

    /// The first required field that is empty, in the order of the fields.
    /// A report may be sent when there is none.
    pub fn first_empty(&self) -> (field: Option<ReportField>)
        ensures
            field == self@.first_empty(),
    {
        if self.app_version.as_str().is_empty() {
            Some(ReportField::AppVersion)
        } else if self.os_version.as_str().is_empty() {
            Some(ReportField::OsVersion)
        } else if self.device_model.as_str().is_empty() {
            Some(ReportField::DeviceModel)
        } else if self.cursor_version.as_str().is_empty() {
            Some(ReportField::CursorVersion)
        } else if self.bug_description.as_str().is_empty() {
            Some(ReportField::BugDescription)
        } else if self.occurrence_time.as_str().is_empty() {
            Some(ReportField::OccurrenceTime)
        } else if self.severity.as_str().is_empty() {
            Some(ReportField::Severity)
        } else {
            None
        }
    }
}

/// Law: a report is assembled from any facts. Without the host's name and
/// without the editor's version, given or looked up, it names both as
/// `Unknown`, and every other field holds what was handed in.
pub proof fn lemma_assembled_without_lookups(
    facts: Facts,
    description: Seq<char>,
    severity: Seq<char>,
    api_key: Option<Seq<char>>,
    screenshot_urls: Option<Seq<Seq<char>>>,
)
    requires
        facts.host_name is None,
        facts.editor_version is None,
    ensures
        ({
            let report = assembled(facts, description, severity, api_key, screenshot_urls, None);
            &&& report.device_model == unknown()
            &&& report.cursor_version == unknown()
            &&& report.app_version == facts.app_version
            &&& report.os_version == system_label(facts.system_name, facts.system_version)
            &&& report.os_version.len() > 0
            &&& report.bug_description == description
            &&& report.occurrence_time == or_unknown(facts.time)
            &&& report.severity == severity
            &&& report.api_key == api_key
            &&& report.screenshot_urls == screenshot_urls
        }),
{
    reveal_strlit(" ");
}

/// Law: whether a report is complete, and which field it lacks first, does
/// not depend on the operating system, nor on the time where the time, if
/// it is known, is not empty.
pub proof fn lemma_completeness_ignores_machine(
    facts: Facts,
    other: Facts,
    description: Seq<char>,
    severity: Seq<char>,
    api_key: Option<Seq<char>>,
    screenshot_urls: Option<Seq<Seq<char>>>,
    given_version: Option<Seq<char>>,
)
    requires
        facts.app_version == other.app_version,
        facts.host_name == other.host_name,
        facts.editor_version == other.editor_version,
        facts.time matches Some(time) ==> time.len() > 0,
        other.time matches Some(time) ==> time.len() > 0,
    ensures
        assembled(
            facts,
            description,
            severity,
            api_key,
            screenshot_urls,
            given_version,
        ).first_empty() == assembled(
            other,
            description,
            severity,
            api_key,
            screenshot_urls,
            given_version,
        ).first_empty(),
        assembled(
            facts,
            description,
            severity,
            api_key,
            screenshot_urls,
            given_version,
        ).first_empty() != Some(ReportField::OsVersion),
        assembled(
            facts,
            description,
            severity,
            api_key,
            screenshot_urls,
            given_version,
        ).first_empty() != Some(ReportField::OccurrenceTime),
{
    reveal_strlit(" ");
    reveal_strlit("Unknown");
}

} // verus!
