//! The requests of the client, one function for each operation.
//!
//! A function here sends nothing. It says what is to be sent: the method,
//! the address, the headers, the body, and how the reply is to be read. The
//! caller performs the exchange and settles the reply with the functions of
//! the `response` module.

use vstd::prelude::*;
use vstd::string::StringExecFns;
use crate::host::observe;
use crate::host::timestamp_text;
use crate::host::ClockReading;
use crate::host::Facts;
use crate::report::assemble;
use crate::report::assembled;
use crate::report::lemma_completeness_ignores_machine;
use crate::report::BugReport;
use crate::report::BugReportRequest;
use crate::report::ReportField;
use crate::text::text_of;
use crate::text::texts_of;
use crate::token::join;
use crate::token::join_spec;

verus! {

/// The method of a request.
#[derive(Clone, Copy, Debug, PartialEq, Eq, Structural)]
pub enum Method {
    Get,
    Post,
}

/// How the reply to a request is read, and which function of the
/// `response` module says what the operation comes to.
#[derive(Clone, Copy, Debug, PartialEq, Eq, Structural)]
pub enum ReplyForm {
    /// The body is an envelope, parsed as it arrives. `ApiResponse::into_result`
    /// gives the outcome.
    Envelope,
    /// The body is an envelope. It is read as text and logged before it is
    /// parsed, so that `decoded` can keep the text of a body that cannot be
    /// parsed. `ApiResponse::into_result` gives the outcome.
    LoggedEnvelope,
    /// The body is an envelope whose data, if any, is of no account: the
    /// operation yields nothing. `ApiResponse::acknowledged` gives the
    /// outcome.
    Acknowledgement,
    /// The body is an envelope around an account record. `account_detail`
    /// gives the outcome, with the record's credential taken apart.
    Account,
    /// The body is the usage of a session itself, with no envelope around
    /// it. `usage_envelope` puts one around it.
    Usage,
    /// The body is the user of a session itself, with no envelope around
    /// it. `vendor_user_envelope` puts one around it.
    VendorUser,
    /// The body is not read: the operation is done when the exchange took
    /// place.
    Ignored,
}

/// The body of a request.
#[allow(inconsistent_fields)]
#[derive(Clone, Debug, PartialEq, Eq)]
pub enum Payload {
    Empty,
    CheckUser { username: String },
    SendCode { username: String, is_reset_password: Option<bool> },
    Login { username: String, password: String, device_id: String, sms_code: Option<String> },
    Activate { code: String },
    ChangePassword { old_password: String, new_password: String },
    ResetPassword { email: String, sms_code: String, new_password: String },
    Report(BugReportRequest),
}

/// The body of a request as texts.
#[allow(inconsistent_fields)]
pub enum PayloadView {
    Empty,
    CheckUser { username: Seq<char> },
    SendCode { username: Seq<char>, is_reset_password: Option<bool> },
    Login {
        username: Seq<char>,
        password: Seq<char>,
        device_id: Seq<char>,
        sms_code: Option<Seq<char>>,
    },
    Activate { code: Seq<char> },
    ChangePassword { old_password: Seq<char>, new_password: Seq<char> },
    ResetPassword { email: Seq<char>, sms_code: Seq<char>, new_password: Seq<char> },
    Report(BugReport),
}

impl View for Payload {
    type V = PayloadView;

    open spec fn view(&self) -> PayloadView {
        match *self {
            Payload::Empty => PayloadView::Empty,
            Payload::CheckUser { username } => PayloadView::CheckUser { username: username@ },
            Payload::SendCode { username, is_reset_password } => PayloadView::SendCode {
                username: username@,
                is_reset_password,
            },
            Payload::Login { username, password, device_id, sms_code } => PayloadView::Login {
                username: username@,
                password: password@,
                device_id: device_id@,
                sms_code: text_of(sms_code),
            },
            Payload::Activate { code } => PayloadView::Activate { code: code@ },
            Payload::ChangePassword { old_password, new_password } => PayloadView::ChangePassword {
                old_password: old_password@,
                new_password: new_password@,
            },
            Payload::ResetPassword { email, sms_code, new_password } => PayloadView::ResetPassword {
                email: email@,
                sms_code: sms_code@,
                new_password: new_password@,
            },
            Payload::Report(report) => PayloadView::Report(report@),
        }
    }
}

/// What is to be sent for one operation.
#[derive(Clone, Debug, PartialEq, Eq)]
pub struct Request {
    pub method: Method,
    pub url: String,
    /// The value of the `Authorization` header, where the request has one.
    pub authorization: Option<String>,
    /// The value of the `Cookie` header, where the request has one.
    pub cookie: Option<String>,
    pub body: Payload,
    pub reply: ReplyForm,
}

/// A request as texts.
pub struct RequestView {
    pub method: Method,
    pub url: Seq<char>,
    pub authorization: Option<Seq<char>>,
    pub cookie: Option<Seq<char>>,
    pub body: PayloadView,
    pub reply: ReplyForm,
}

impl View for Request {
    type V = RequestView;

    open spec fn view(&self) -> RequestView {
        RequestView {
            method: self.method,
            url: self.url@,
            authorization: text_of(self.authorization),
            cookie: text_of(self.cookie),
            body: self.body@,
            reply: self.reply,
        }
    }
}

/// The `Authorization` header that carries the key `api_key`.
pub open spec fn bearer(api_key: Seq<char>) -> Seq<char> {
    "Bearer "@ + api_key
}

/// The `Cookie` header that carries a session of the editor vendor: the
/// credential joined from the identifier and the secret.
pub open spec fn session_cookie(identifier: Seq<char>, secret: Seq<char>) -> Seq<char> {
    "WorkosCursorSessionToken="@ + join_spec(identifier, secret)
}

/// A request to the account service without a key.
pub open spec fn open_request(
    method: Method,
    base_url: Seq<char>,
    path: Seq<char>,
    body: PayloadView,
    reply: ReplyForm,
) -> RequestView {
    RequestView { method, url: base_url + path, authorization: None, cookie: None, body, reply }
}

/// A request to the account service with the key `api_key`.
pub open spec fn keyed_request(
    method: Method,
    base_url: Seq<char>,
    path: Seq<char>,
    api_key: Seq<char>,
    body: PayloadView,
    reply: ReplyForm,
) -> RequestView {
    RequestView {
        method,
        url: base_url + path,
        authorization: Some(bearer(api_key)),
        cookie: None,
        body,
        reply,
    }
}

/// A request to the editor vendor, whose host is fixed.
pub open spec fn vendor_request(
    url: Seq<char>,
    identifier: Seq<char>,
    secret: Seq<char>,
    reply: ReplyForm,
) -> RequestView {
    RequestView {
        method: Method::Get,
        url,
        authorization: None,
        cookie: Some(session_cookie(identifier, secret)),
        body: PayloadView::Empty,
        reply,
    }
}

fn to_account_service(
    method: Method,
    base_url: &str,
    path: &str,
    api_key: Option<&str>,
    body: Payload,
    reply: ReplyForm,
) -> (request: Request)
    ensures
        request@ == (match api_key {
            Some(key) => keyed_request(method, base_url@, path@, key@, body@, reply),
            None => open_request(method, base_url@, path@, body@, reply),
        }),
{
    let mut url = String::from_str(base_url);
    url.append(path);
    let authorization = match api_key {
        Some(key) => {
            let mut header = String::from_str("Bearer ");
            header.append(key);
            Some(header)
        },
        None => None,
    };
    Request { method, url, authorization, cookie: None, body, reply }
}

fn to_vendor(url: &str, identifier: &str, secret: &str, reply: ReplyForm) -> (request: Request)
    ensures
        request@ == vendor_request(url@, identifier@, secret@, reply),
{
    let mut cookie = String::from_str("WorkosCursorSessionToken=");
    cookie.append(join(identifier, secret).as_str());
    Request {
        method: Method::Get,
        url: String::from_str(url),
        authorization: None,
        cookie: Some(cookie),
        body: Payload::Empty,
        reply,
    }
}

/// Asks whether a user of this name exists.
pub fn check_user(base_url: &str, username: String) -> (request: Request)
    ensures
        request@ == open_request(
            Method::Post,
            base_url@,
            "/user/check"@,
            PayloadView::CheckUser { username: username@ },
            ReplyForm::Envelope,
        ),
{
    to_account_service(
        Method::Post,
        base_url,
        "/user/check",
        None,
        Payload::CheckUser { username },
        ReplyForm::Envelope,
    )
}

/// Has a verification code sent to the user, for a registration or for a
/// new password.
pub fn send_code(base_url: &str, username: String, is_reset_password: Option<bool>) -> (request:
    Request)
    ensures
        request@ == open_request(
            Method::Post,
            base_url@,
            "/user/send_code"@,
            PayloadView::SendCode { username: username@, is_reset_password },
            ReplyForm::LoggedEnvelope,
        ),
{
    to_account_service(
        Method::Post,
        base_url,
        "/user/send_code",
        None,
        Payload::SendCode { username, is_reset_password },
        ReplyForm::LoggedEnvelope,
    )
}

/// Logs the user in from one device.
pub fn login(
    base_url: &str,
    username: String,
    password: String,
    device_id: String,
    sms_code: Option<String>,
) -> (request: Request)
    ensures
        request@ == open_request(
            Method::Post,
            base_url@,
            "/user/login"@,
            PayloadView::Login {
                username: username@,
                password: password@,
                device_id: device_id@,
                sms_code: text_of(sms_code),
            },
            ReplyForm::Envelope,
        ),
{
    to_account_service(
        Method::Post,
        base_url,
        "/user/login",
        None,
        Payload::Login { username, password, device_id, sms_code },
        ReplyForm::Envelope,
    )
}

/// Asks for what the service knows of the user.
pub fn get_user_info(base_url: &str, api_key: &str) -> (request: Request)
    ensures
        request@ == keyed_request(
            Method::Get,
            base_url@,
            "/user/info"@,
            api_key@,
            PayloadView::Empty,
            ReplyForm::Envelope,
        ),
{
    to_account_service(
        Method::Get,
        base_url,
        "/user/info",
        Some(api_key),
        Payload::Empty,
        ReplyForm::Envelope,
    )
}

/// Redeems an activation code.
pub fn activate(base_url: &str, api_key: &str, code: String) -> (request: Request)
    ensures
        request@ == keyed_request(
            Method::Post,
            base_url@,
            "/user/activate"@,
            api_key@,
            PayloadView::Activate { code: code@ },
            ReplyForm::Envelope,
        ),
{
    to_account_service(
        Method::Post,
        base_url,
        "/user/activate",
        Some(api_key),
        Payload::Activate { code },
        ReplyForm::Envelope,
    )
}

/// Changes the user's password.
pub fn change_password(
    base_url: &str,
    api_key: &str,
    old_password: String,
    new_password: String,
) -> (request: Request)
    ensures
        request@ == keyed_request(
            Method::Post,
            base_url@,
            "/user/change_password"@,
            api_key@,
            PayloadView::ChangePassword {
                old_password: old_password@,
                new_password: new_password@,
            },
            ReplyForm::LoggedEnvelope,
        ),
{
    to_account_service(
        Method::Post,
        base_url,
        "/user/change_password",
        Some(api_key),
        Payload::ChangePassword { old_password, new_password },
        ReplyForm::LoggedEnvelope,
    )
}

/// Asks for the account that the service has assigned to the user.
pub fn get_account(base_url: &str, api_key: &str) -> (request: Request)
    ensures
        request@ == keyed_request(
            Method::Get,
            base_url@,
            "/account/get"@,
            api_key@,
            PayloadView::Empty,
            ReplyForm::Account,
        ),
{
    to_account_service(
        Method::Get,
        base_url,
        "/account/get",
        Some(api_key),
        Payload::Empty,
        ReplyForm::Account,
    )
}

/// Asks the editor vendor for the usage of a session.
pub fn get_usage(identifier: &str, secret: &str) -> (request: Request)
    ensures
        request@ == vendor_request(
            "https://www.cursor.com/api/usage"@,
            identifier@,
            secret@,
            ReplyForm::Usage,
        ),
{
    to_vendor("https://www.cursor.com/api/usage", identifier, secret, ReplyForm::Usage)
}

/// Asks the editor vendor for the user of a session.
pub fn get_user_info_cursor(user_id: &str, token: &str) -> (request: Request)
    ensures
        request@ == vendor_request(
            "https://www.cursor.com/api/auth/me"@,
            user_id@,
            token@,
            ReplyForm::VendorUser,
        ),
{
    to_vendor("https://www.cursor.com/api/auth/me", user_id, token, ReplyForm::VendorUser)
}

/// Asks for the current version of the client.
pub fn get_version(base_url: &str) -> (request: Request)
    ensures
        request@ == open_request(
            Method::Get,
            base_url@,
            "/version"@,
            PayloadView::Empty,
            ReplyForm::Envelope,
        ),
{
    to_account_service(
        Method::Get,
        base_url,
        "/version",
        None,
        Payload::Empty,
        ReplyForm::Envelope,
    )
}

/// Asks for the public notices of the service.
pub fn get_public_info(base_url: &str) -> (request: Request)
    ensures
        request@ == open_request(
            Method::Get,
            base_url@,
            "/public/info"@,
            PayloadView::Empty,
            ReplyForm::Envelope,
        ),
{
    to_account_service(
        Method::Get,
        base_url,
        "/public/info",
        None,
        Payload::Empty,
        ReplyForm::Envelope,
    )
}

/// Sets a new password with a verification code.
pub fn reset_password(base_url: &str, email: String, sms_code: String, new_password: String) -> (request:
    Request)
    ensures
        request@ == open_request(
            Method::Post,
            base_url@,
            "/user/reset_password"@,
            PayloadView::ResetPassword {
                email: email@,
                sms_code: sms_code@,
                new_password: new_password@,
            },
            ReplyForm::Acknowledgement,
        ),
{
    to_account_service(
        Method::Post,
        base_url,
        "/user/reset_password",
        None,
        Payload::ResetPassword { email, sms_code, new_password },
        ReplyForm::Acknowledgement,
    )
}

/// Asks for the text of the disclaimer.
pub fn get_disclaimer(base_url: &str) -> (request: Request)
    ensures
        request@ == open_request(
            Method::Get,
            base_url@,
            "/disclaimer"@,
            PayloadView::Empty,
            ReplyForm::Envelope,
        ),
{
    to_account_service(
        Method::Get,
        base_url,
        "/disclaimer",
        None,
        Payload::Empty,
        ReplyForm::Envelope,
    )
}

/// What `submit_report` gives for a report.
pub open spec fn submission(base_url: Seq<char>, report: BugReport) -> Result<RequestView, ReportField> {
    match report.first_empty() {
        Some(field) => Err(field),
        None => Ok(
            open_request(
                Method::Post,
                base_url,
                "/report"@,
                PayloadView::Report(report),
                ReplyForm::Ignored,
            ),
        ),
    }
}

/// Whether `result` is the outcome `expected`.
pub open spec fn submission_is(
    result: Result<Request, ReportField>,
    expected: Result<RequestView, ReportField>,
) -> bool {
    match (result, expected) {
        (Ok(request), Ok(view)) => request@ == view,
        (Err(field), Err(expected_field)) => field == expected_field,
        _ => false,
    }
}

/// Sends a report, unless one of its required fields is empty: then nothing
/// is to be sent, and the result names the first such field.
pub fn submit_report(base_url: &str, report: BugReportRequest) -> (result: Result<
    Request,
    ReportField,
>)
    ensures
        submission_is(result, submission(base_url@, report@)),
{
    match report.first_empty() {
        Some(field) => Err(field),
        None => Ok(
            to_account_service(
                Method::Post,
                base_url,
                "/report",
                None,
                Payload::Report(report),
                ReplyForm::Ignored,
            ),
        ),
    }
}

/// The facts of a report of which the caller gives the version of the
/// program, the host's name and the editor's version, and the machine the
/// rest.
pub open spec fn facts_on(
    system_name: Seq<char>,
    system_version: Seq<char>,
    app_version: Seq<char>,
    host_name: Option<Seq<char>>,
    editor_version: Option<Seq<char>>,
    time: Option<Seq<char>>,
) -> Facts {
    Facts { app_version, system_name, system_version, host_name, editor_version, time }
}

/// The facts that the caller gives, with nothing of the machine. A report
/// from them lacks what a report on any machine lacks.
pub open spec fn facts_given(
    app_version: Seq<char>,
    host_name: Option<Seq<char>>,
    editor_version: Option<Seq<char>>,
) -> Facts {
    facts_on(Seq::empty(), Seq::empty(), app_version, host_name, editor_version, None)
}

/// Whether `result` is what is sent for the report that is assembled from
/// `facts`.
pub open spec fn reported_from(
    result: Result<Request, ReportField>,
    facts: Facts,
    base_url: Seq<char>,
    severity: Seq<char>,
    bug_description: Seq<char>,
    api_key: Option<Seq<char>>,
    screenshot_urls: Option<Seq<Seq<char>>>,
    cursor_version: Option<Seq<char>>,
) -> bool {
    submission_is(
        result,
        submission(
            base_url,
            assembled(facts, bug_description, severity, api_key, screenshot_urls, cursor_version),
        ),
    )
}

/// The required field that a result names as missing, if it names one.
pub open spec fn missing_field(result: Result<Request, ReportField>) -> Option<ReportField> {
    match result {
        Ok(_) => None,
        Err(field) => Some(field),
    }
}

/// Reports a fault: gathers the facts, assembles the report and sends it.
///
/// The caller gives the version of this program, the name of the host and
/// the editor's version as far as it could find them, and what the clock
/// showed; `editor_lookup` is used where `cursor_version` gives none. The
/// operating system is asked for here.
///
/// Whether the report is sent depends on what the caller gives alone: it
/// is sent unless one of the version of the program, the host's name, the
/// editor's version, the description and the severity is empty, and then
/// the result names the first of them. What is sent is the report assembled
/// from the caller's facts, the time of the clock and the name and version
/// of the operating system, whatever these two are.
pub fn report_bug(
    base_url: &str,
    app_version: String,
    host_name: Option<String>,
    editor_lookup: Option<String>,
    clock: Option<ClockReading>,
    severity: String,
    bug_description: String,
    api_key: Option<String>,
    screenshot_urls: Option<Vec<String>>,
    cursor_version: Option<String>,
) -> (result: Result<Request, ReportField>)
    ensures
        missing_field(result) == assembled(
            facts_given(app_version@, text_of(host_name), text_of(editor_lookup)),
            bug_description@,
            severity@,
            text_of(api_key),
            texts_of(screenshot_urls),
            text_of(cursor_version),
        ).first_empty(),
        exists|system_name: Seq<char>, system_version: Seq<char>| #[trigger]
            reported_from(
                result,
                facts_on(
                    system_name,
                    system_version,
                    app_version@,
                    text_of(host_name),
                    text_of(editor_lookup),
                    timestamp_text(clock),
                ),
                base_url@,
                severity@,
                bug_description@,
                text_of(api_key),
                texts_of(screenshot_urls),
                text_of(cursor_version),
            ),
{
    let facts = observe(app_version, host_name, editor_lookup, clock);
    let ghost observed = facts@;
    let report = assemble(
        facts,
        bug_description,
        severity,
        api_key,
        screenshot_urls,
        cursor_version,
    );
    let result = submit_report(base_url, report);
    proof {
        assert(observed == facts_on(
            observed.system_name,
            observed.system_version,
            app_version@,
            text_of(host_name),
            text_of(editor_lookup),
            timestamp_text(clock),
        ));
        assert(reported_from(
            result,
            facts_on(
                observed.system_name,
                observed.system_version,
                app_version@,
                text_of(host_name),
                text_of(editor_lookup),
                timestamp_text(clock),
            ),
            base_url@,
            severity@,
            bug_description@,
            text_of(api_key),
            texts_of(screenshot_urls),
            text_of(cursor_version),
        ));
        lemma_completeness_ignores_machine(
            observed,
            facts_given(app_version@, text_of(host_name), text_of(editor_lookup)),
            bug_description@,
            severity@,
            text_of(api_key),
            texts_of(screenshot_urls),
            text_of(cursor_version),
        );
    }
    result
}

} // verus!
