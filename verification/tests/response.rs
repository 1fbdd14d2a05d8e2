use cursor_client::response::account_detail;
use cursor_client::response::decoded;
use cursor_client::response::usage_envelope;
use cursor_client::response::vendor_user_envelope;
use cursor_client::response::AccountDetail;
use cursor_client::response::AccountInfo;
use cursor_client::response::ApiError;
use cursor_client::response::ApiResponse;
use cursor_client::response::DecodeFailure;
use cursor_client::token::MalformedCredential;

#[derive(Clone, Debug, PartialEq)]
struct Session {
    api_key: String,
    expires: u64,
}

fn envelope<T>(status: &str, message: &str, data: Option<T>) -> ApiResponse<T> {
    ApiResponse { status: status.to_string(), message: message.to_string(), data }
}

fn record(token: &str) -> AccountInfo {
    AccountInfo { email: "user@example.com".to_string(), token: token.to_string() }
}

#[test]
fn login_success_returns_the_data_unchanged() {
    let session = Session { api_key: "key-1".to_string(), expires: 1700000000 };
    let response = envelope("success", "welcome", Some(session.clone()));
    assert!(response.succeeded());
    assert_eq!(response.into_result(), Ok(session));
}

#[test]
fn login_failure_is_the_message_of_the_service() {
    let response: ApiResponse<Session> = envelope("error", "bad password", None);
    assert!(!response.succeeded());
    let error = response.into_result().unwrap_err();
    assert_eq!(error, ApiError::Application("bad password".to_string()));
    assert_eq!(error.message(), "bad password");
}

#[test]
fn a_failure_status_wins_over_data() {
    let session = Session { api_key: "key-1".to_string(), expires: 0 };
    let response = envelope("failed", "account locked", Some(session));
    assert_eq!(response.into_result(), Err(ApiError::Application("account locked".to_string())));
}

#[test]
fn the_status_is_compared_exactly() {
    for status in ["Success", "success ", "", "ok", "succes"] {
        let response = envelope(status, "m", Some(1u8));
        assert!(!response.succeeded());
        assert_eq!(response.into_result(), Err(ApiError::Application("m".to_string())));
    }
}

#[test]
fn success_without_data_cannot_be_decoded() {
    let response: ApiResponse<Session> = envelope("success", "welcome", None);
    let error = response.into_result().unwrap_err();
    assert_eq!(error, ApiError::Decode(DecodeFailure::MissingData));
    assert_eq!(error.message(), "No login data received");
}

#[test]
fn acknowledged_needs_no_data() {
    assert_eq!(envelope::<()>("success", "done", None).acknowledged(), Ok(()));
    assert_eq!(envelope("success", "done", Some(())).acknowledged(), Ok(()));
    assert_eq!(
        envelope::<()>("error", "code expired", None).acknowledged(),
        Err(ApiError::Application("code expired".to_string()))
    );
}

#[test]
fn decoded_keeps_the_raw_body_with_the_failure() {
    let parsed: Result<u8, String> = Err("expected value at line 1 column 1".to_string());
    let error = decoded(Some("<html>".to_string()), parsed).unwrap_err();
    assert_eq!(
        error,
        ApiError::Decode(DecodeFailure::Body {
            detail: "expected value at line 1 column 1".to_string(),
            raw: Some("<html>".to_string()),
        })
    );
    assert_eq!(error.message(), "expected value at line 1 column 1");
    let unread: Result<u8, String> = Err("eof".to_string());
    assert_eq!(
        decoded(None, unread),
        Err(ApiError::Decode(DecodeFailure::Body { detail: "eof".to_string(), raw: None }))
    );
}

#[test]
fn decoded_hands_on_what_was_parsed() {
    assert_eq!(decoded(Some("7".to_string()), Ok(7u8)), Ok(7u8));
    assert_eq!(decoded(None, Ok("x".to_string())), Ok("x".to_string()));
}

#[test]
fn the_three_kinds_of_failure_stay_apart() {
    let transport = ApiError::Transport("connection refused".to_string());
    let application = ApiError::Application("connection refused".to_string());
    let decode = ApiError::Decode(DecodeFailure::Body {
        detail: "connection refused".to_string(),
        raw: None,
    });
    assert_ne!(transport, application);
    assert_ne!(transport, decode);
    assert_ne!(application, decode);
    assert_eq!(transport.message(), "connection refused");
}

#[test]
fn account_record_is_taken_apart() {
    let detail = AccountDetail::from_record(record("abc123%3A%3Axyz789")).unwrap();
    assert_eq!(detail.email, "user@example.com");
    assert_eq!(detail.user_id, "abc123");
    assert_eq!(detail.token, "xyz789");
}

#[test]
fn account_record_is_cut_at_the_first_delimiter() {
    let detail = AccountDetail::from_record(record("x%3A%3A%3Ay")).unwrap();
    assert_eq!(detail.user_id, "x");
    assert_eq!(detail.token, "%3Ay");
}

#[test]
fn account_lookup_returns_the_detail() {
    let response = envelope("success", "ok", Some(record("abc123%3A%3Axyz789")));
    assert_eq!(
        account_detail(response),
        Ok(AccountDetail {
            email: "user@example.com".to_string(),
            user_id: "abc123".to_string(),
            token: "xyz789".to_string(),
        })
    );
}

#[test]
fn account_record_with_a_malformed_token_is_a_decode_failure() {
    let cases = [
        ("abc123", MalformedCredential::NoDelimiter),
        ("abc123::xyz789", MalformedCredential::NoDelimiter),
        ("a%3A%3Ab%3A%3Ac", MalformedCredential::SeveralDelimiters),
        ("%3A%3Axyz789", MalformedCredential::EmptyIdentifier),
        ("abc123%3A%3A", MalformedCredential::EmptySecret),
    ];
    for (token, reason) in cases {
        let expected = ApiError::Decode(DecodeFailure::Credential(reason));
        assert_eq!(AccountDetail::from_record(record(token)), Err(expected.clone()));
        assert_eq!(account_detail(envelope("success", "ok", Some(record(token)))), Err(expected));
    }
    let error = AccountDetail::from_record(record("abc123")).unwrap_err();
    assert_eq!(error.message(), "credential without a secret");
}

#[test]
fn account_lookup_fails_with_the_message_of_the_service() {
    let refused = envelope("error", "no account left", Some(record("abc123%3A%3Axyz789")));
    assert_eq!(
        account_detail(refused),
        Err(ApiError::Application("no account left".to_string()))
    );
    let empty: ApiResponse<AccountInfo> = envelope("success", "ok", None);
    assert_eq!(account_detail(empty), Err(ApiError::Decode(DecodeFailure::MissingData)));
}

#[test]
fn vendor_answers_get_an_envelope() {
    let usage = usage_envelope(vec![3u32, 150]);
    assert_eq!(usage.status, "success");
    assert_eq!(usage.message, "获取使用情况成功");
    assert_eq!(usage.data, Some(vec![3u32, 150]));
    assert_eq!(usage.clone().into_result(), Ok(vec![3u32, 150]));
    let user = vendor_user_envelope("user@example.com".to_string());
    assert_eq!(user.status, "success");
    assert_eq!(user.message, "获取用户信息成功");
    assert_eq!(user.data, Some("user@example.com".to_string()));
}
