use cursor_client::endpoints::activate;
use cursor_client::endpoints::change_password;
use cursor_client::endpoints::check_user;
use cursor_client::endpoints::get_account;
use cursor_client::endpoints::get_disclaimer;
use cursor_client::endpoints::get_public_info;
use cursor_client::endpoints::get_usage;
use cursor_client::endpoints::get_user_info;
use cursor_client::endpoints::get_user_info_cursor;
use cursor_client::endpoints::get_version;
use cursor_client::endpoints::login;
use cursor_client::endpoints::report_bug;
use cursor_client::endpoints::reset_password;
use cursor_client::endpoints::send_code;
use cursor_client::endpoints::submit_report;
use cursor_client::endpoints::Method;
use cursor_client::endpoints::Payload;
use cursor_client::endpoints::ReplyForm;
use cursor_client::endpoints::Request;
use cursor_client::host::ClockReading;
use cursor_client::report::BugReportRequest;
use cursor_client::report::ReportField;
use cursor_client::token::split;

const BASE: &str = "https://api.example.com/v1";

fn open(method: Method, path: &str, body: Payload, reply: ReplyForm) -> Request {
    Request {
        method,
        url: format!("{}{}", BASE, path),
        authorization: None,
        cookie: None,
        body,
        reply,
    }
}

fn keyed(method: Method, path: &str, body: Payload, reply: ReplyForm) -> Request {
    Request { authorization: Some("Bearer key-1".to_string()), ..open(method, path, body, reply) }
}

fn sample_report() -> BugReportRequest {
    BugReportRequest {
        api_key: Some("key-1".to_string()),
        app_version: "1.4.2".to_string(),
        os_version: "Ubuntu 22.04".to_string(),
        device_model: "workstation".to_string(),
        cursor_version: "0.45.1".to_string(),
        bug_description: "it crashed".to_string(),
        occurrence_time: "2024-05-01T12:00:00+00:00".to_string(),
        screenshot_urls: None,
        severity: "high".to_string(),
    }
}

#[test]
fn check_user_request() {
    assert_eq!(
        check_user(BASE, "alice".to_string()),
        open(
            Method::Post,
            "/user/check",
            Payload::CheckUser { username: "alice".to_string() },
            ReplyForm::Envelope,
        )
    );
}

#[test]
fn send_code_request() {
    assert_eq!(
        send_code(BASE, "alice".to_string(), Some(true)),
        open(
            Method::Post,
            "/user/send_code",
            Payload::SendCode { username: "alice".to_string(), is_reset_password: Some(true) },
            ReplyForm::LoggedEnvelope,
        )
    );
    assert_eq!(
        send_code(BASE, "alice".to_string(), None).body,
        Payload::SendCode { username: "alice".to_string(), is_reset_password: None }
    );
}

#[test]
fn login_request() {
    assert_eq!(
        login(
            BASE,
            "alice".to_string(),
            "hunter2".to_string(),
            "device-9".to_string(),
            Some("123456".to_string()),
        ),
        open(
            Method::Post,
            "/user/login",
            Payload::Login {
                username: "alice".to_string(),
                password: "hunter2".to_string(),
                device_id: "device-9".to_string(),
                sms_code: Some("123456".to_string()),
            },
            ReplyForm::Envelope,
        )
    );
}

#[test]
fn get_user_info_request() {
    assert_eq!(
        get_user_info(BASE, "key-1"),
        keyed(Method::Get, "/user/info", Payload::Empty, ReplyForm::Envelope)
    );
}

#[test]
fn activate_request() {
    assert_eq!(
        activate(BASE, "key-1", "CODE-7".to_string()),
        keyed(
            Method::Post,
            "/user/activate",
            Payload::Activate { code: "CODE-7".to_string() },
            ReplyForm::Envelope,
        )
    );
}

#[test]
fn change_password_request() {
    assert_eq!(
        change_password(BASE, "key-1", "old".to_string(), "new".to_string()),
        keyed(
            Method::Post,
            "/user/change_password",
            Payload::ChangePassword {
                old_password: "old".to_string(),
                new_password: "new".to_string(),
            },
            ReplyForm::LoggedEnvelope,
        )
    );
}

#[test]
fn get_account_request() {
    assert_eq!(
        get_account(BASE, "key-1"),
        keyed(Method::Get, "/account/get", Payload::Empty, ReplyForm::Account)
    );
}

#[test]
fn get_usage_request() {
    assert_eq!(
        get_usage("user_01", "tok"),
        Request {
            method: Method::Get,
            url: "https://www.cursor.com/api/usage".to_string(),
            authorization: None,
            cookie: Some("WorkosCursorSessionToken=user_01%3A%3Atok".to_string()),
            body: Payload::Empty,
            reply: ReplyForm::Usage,
        }
    );
}

#[test]
fn get_user_info_cursor_request() {
    assert_eq!(
        get_user_info_cursor("user_01", "tok"),
        Request {
            method: Method::Get,
            url: "https://www.cursor.com/api/auth/me".to_string(),
            authorization: None,
            cookie: Some("WorkosCursorSessionToken=user_01%3A%3Atok".to_string()),
            body: Payload::Empty,
            reply: ReplyForm::VendorUser,
        }
    );
}

#[test]
fn the_cookie_holds_the_credential_that_split_takes_apart() {
    let request = get_usage("abc123", "xyz789");
    let cookie = request.cookie.unwrap();
    let credential = cookie.strip_prefix("WorkosCursorSessionToken=").unwrap();
    assert_eq!(split(credential), Ok(("abc123".to_string(), "xyz789".to_string())));
}

#[test]
fn get_version_request() {
    assert_eq!(
        get_version(BASE),
        open(Method::Get, "/version", Payload::Empty, ReplyForm::Envelope)
    );
}

#[test]
fn get_public_info_request() {
    assert_eq!(
        get_public_info(BASE),
        open(Method::Get, "/public/info", Payload::Empty, ReplyForm::Envelope)
    );
}

#[test]
fn reset_password_request() {
    assert_eq!(
        reset_password(
            BASE,
            "alice@example.com".to_string(),
            "123456".to_string(),
            "new".to_string(),
        ),
        open(
            Method::Post,
            "/user/reset_password",
            Payload::ResetPassword {
                email: "alice@example.com".to_string(),
                sms_code: "123456".to_string(),
                new_password: "new".to_string(),
            },
            ReplyForm::Acknowledgement,
        )
    );
}

#[test]
fn get_disclaimer_request() {
    assert_eq!(
        get_disclaimer(BASE),
        open(Method::Get, "/disclaimer", Payload::Empty, ReplyForm::Envelope)
    );
}

#[test]
fn the_base_address_is_taken_as_it_is() {
    assert_eq!(get_version("").url, "/version");
    assert_eq!(get_version("http://localhost:8080/").url, "http://localhost:8080//version");
}

#[test]
fn submit_report_sends_a_complete_report() {
    assert_eq!(
        submit_report(BASE, sample_report()),
        Ok(open(Method::Post, "/report", Payload::Report(sample_report()), ReplyForm::Ignored))
    );
}

#[test]
fn submit_report_refuses_an_incomplete_report() {
    let report = BugReportRequest { bug_description: String::new(), ..sample_report() };
    assert_eq!(submit_report(BASE, report), Err(ReportField::BugDescription));
    let report = BugReportRequest {
        severity: String::new(),
        app_version: String::new(),
        ..sample_report()
    };
    assert_eq!(submit_report(BASE, report), Err(ReportField::AppVersion));
}

fn noon() -> Option<ClockReading> {
    Some(ClockReading { seconds: 1_714_564_800, nanoseconds: 0 })
}

#[test]
fn report_bug_assembles_and_sends() {
    let request = report_bug(
        BASE,
        "1.4.2".to_string(),
        Some("workstation".to_string()),
        None,
        noon(),
        "high".to_string(),
        "it crashed".to_string(),
        Some("key-1".to_string()),
        Some(vec!["https://example.com/a.png".to_string()]),
        None,
    )
    .unwrap();
    let info = os_info::get();
    let expected = BugReportRequest {
        api_key: Some("key-1".to_string()),
        app_version: "1.4.2".to_string(),
        os_version: format!("{} {}", info.os_type(), info.version()),
        device_model: "workstation".to_string(),
        cursor_version: "Unknown".to_string(),
        bug_description: "it crashed".to_string(),
        occurrence_time: "2024-05-01T12:00:00+00:00".to_string(),
        screenshot_urls: Some(vec!["https://example.com/a.png".to_string()]),
        severity: "high".to_string(),
    };
    assert_eq!(
        request,
        open(Method::Post, "/report", Payload::Report(expected), ReplyForm::Ignored)
    );
}

#[test]
fn report_bug_degrades_to_unknown() {
    let request = report_bug(
        BASE,
        "1.4.2".to_string(),
        None,
        None,
        None,
        "low".to_string(),
        "d".to_string(),
        None,
        None,
        None,
    )
    .unwrap();
    let Payload::Report(report) = request.body else {
        panic!("the body of a report request is the report");
    };
    assert_eq!(report.device_model, "Unknown");
    assert_eq!(report.cursor_version, "Unknown");
    assert_eq!(report.occurrence_time, "Unknown");
    assert!(report.os_version.contains(' '));
}

#[test]
fn report_bug_uses_the_given_version_then_the_lookup() {
    let body = |lookup: Option<&str>, given: Option<&str>| {
        let request = report_bug(
            BASE,
            "1.4.2".to_string(),
            None,
            lookup.map(str::to_string),
            noon(),
            "low".to_string(),
            "d".to_string(),
            None,
            None,
            given.map(str::to_string),
        )
        .unwrap();
        match request.body {
            Payload::Report(report) => report.cursor_version,
            _ => panic!("the body of a report request is the report"),
        }
    };
    assert_eq!(body(Some("0.45.1"), Some("0.50.0")), "0.50.0");
    assert_eq!(body(Some("0.45.1"), None), "0.45.1");
    assert_eq!(body(None, None), "Unknown");
}

#[test]
fn report_bug_names_the_first_field_that_the_caller_left_empty() {
    let attempt = |app: &str, host: Option<&str>, given: Option<&str>, text: &str, level: &str| {
        report_bug(
            BASE,
            app.to_string(),
            host.map(str::to_string),
            None,
            noon(),
            level.to_string(),
            text.to_string(),
            None,
            None,
            given.map(str::to_string),
        )
    };
    assert!(attempt("1.4.2", Some("h"), Some("v"), "d", "s").is_ok());
    assert!(attempt("1.4.2", None, None, "d", "s").is_ok());
    assert_eq!(
        attempt("", Some(""), Some(""), "", "").unwrap_err(),
        ReportField::AppVersion
    );
    assert_eq!(
        attempt("1.4.2", Some(""), Some(""), "", "").unwrap_err(),
        ReportField::DeviceModel
    );
    assert_eq!(
        attempt("1.4.2", Some("h"), Some(""), "", "").unwrap_err(),
        ReportField::CursorVersion
    );
    assert_eq!(
        attempt("1.4.2", Some("h"), Some("v"), "", "").unwrap_err(),
        ReportField::BugDescription
    );
    assert_eq!(
        attempt("1.4.2", Some("h"), Some("v"), "d", "").unwrap_err(),
        ReportField::Severity
    );
}
