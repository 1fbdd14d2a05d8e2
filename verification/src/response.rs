//! What the account service answers, and the failures of an operation.
//!
//! Every answer of the account service is an envelope: a status, a message
//! and, on success, the data. An operation ends in its data or in one
//! failure of three kinds, which stay apart: the transport failed, the body
//! could not be decoded, or the service itself refused.

use vstd::prelude::*;
use vstd::string::StringExecFns;
use crate::token::MalformedCredential;
use crate::token::split;
use crate::token::split_spec;

verus! {

/// Why a body that arrived could not be turned into the result.
#[derive(Clone, Debug, PartialEq, Eq)]
pub enum DecodeFailure {
    /// The body does not follow the expected schema. `raw` is the body as
    /// text, where it was read as text before it was parsed.
    Body { detail: String, raw: Option<String> },
    /// The envelope reports success and holds no data.
    MissingData,
    /// The token of an account record is no credential.
    Credential(MalformedCredential),
}

/// The failure of an operation.
#[derive(Clone, Debug, PartialEq, Eq)]
pub enum ApiError {
    /// The request did not reach the service, or its answer did not arrive.
    /// The text is that of the transport, unchanged.
    Transport(String),
    /// An answer arrived and could not be decoded.
    Decode(DecodeFailure),
    /// The service answered with a status other than success. The text is
    /// the message of the service.
    Application(String),
}

/// The envelope around every answer of the account service.
#[derive(Clone, Debug, PartialEq, Eq)]
pub struct ApiResponse<T> {
    pub status: String,
    pub message: String,
    pub data: Option<T>,
}

/// An account as the service records it. The token is a credential.
#[derive(Clone, Debug, PartialEq, Eq)]
pub struct AccountInfo {
    pub email: String,
    pub token: String,
}

/// An account as the user sees it: the credential taken apart.
#[derive(Clone, Debug, PartialEq, Eq)]
pub struct AccountDetail {
    pub email: String,
    pub user_id: String,
    pub token: String,
}

/// Whether `status` is the status of a success.
pub open spec fn is_success(status: Seq<char>) -> bool {
    status == "success"@
}

/// The text that is shown for an envelope that reports success without data.
pub open spec fn missing_data_text() -> Seq<char> {
    "No login data received"@
}

impl ApiError {
    /// The text that is shown for this failure.
    pub open spec fn text(self) -> Seq<char> {
        match self {
            ApiError::Transport(text) => text@,
            ApiError::Application(text) => text@,
            ApiError::Decode(DecodeFailure::Body { detail, raw }) => detail@,
            ApiError::Decode(DecodeFailure::MissingData) => missing_data_text(),
            ApiError::Decode(DecodeFailure::Credential(reason)) => reason.text(),
        }
    }

    /// The text that is shown for this failure: that of the transport, the
    /// message of the service, or what went wrong in decoding.
    pub fn message(&self) -> (text: String)
        ensures
            text@ == self.text(),
    {
        match self {
            ApiError::Transport(text) => text.clone(),
            ApiError::Application(text) => text.clone(),
            ApiError::Decode(DecodeFailure::Body { detail, raw }) => detail.clone(),
            ApiError::Decode(DecodeFailure::MissingData) => String::from_str(
                "No login data received",
            ),
            ApiError::Decode(DecodeFailure::Credential(reason)) => String::from_str(
                reason.describe(),
            ),
        }
    }
}

/// The outcome of parsing a body: what was parsed, or a decode failure that
/// keeps the parser's words and, where the body was read as text, the text.
pub fn decoded<T>(raw: Option<String>, parsed: Result<T, String>) -> (result: Result<T, ApiError>)
    ensures
        match parsed {
            Ok(value) => result == Ok::<T, ApiError>(value),
            Err(detail) => result == Err::<T, ApiError>(
                ApiError::Decode(DecodeFailure::Body { detail, raw }),
            ),
        },
{
    match parsed {
        Ok(value) => Ok(value),
        Err(detail) => Err(ApiError::Decode(DecodeFailure::Body { detail, raw })),
    }
}

impl<T> ApiResponse<T> {
    /// Whether the envelope reports success.
    pub fn succeeded(&self) -> (yes: bool)
        ensures
            yes == is_success(self.status@),
    {
        self.status == String::from_str("success")
    }

    /// The data of an envelope that reports success. With any other status
    /// the operation fails with the message of the service. An envelope
    /// that reports success without data cannot be decoded.
    pub fn into_result(self) -> (result: Result<T, ApiError>)
        ensures
            match result {
                Ok(data) => is_success(self.status@) && self.data == Some(data),
                Err(ApiError::Application(text)) => !is_success(self.status@) && text
                    == self.message,
                Err(ApiError::Decode(DecodeFailure::MissingData)) => is_success(self.status@)
                    && self.data is None,
                Err(_) => false,
            },
    {
        if !self.succeeded() {
            return Err(ApiError::Application(self.message));
        }
        match self.data {
            Some(data) => Ok(data),
            None => Err(ApiError::Decode(DecodeFailure::MissingData)),
        }
    }

    /// The outcome of an operation that yields nothing: done when the
    /// envelope reports success, with or without data, and else failed with
    /// the message of the service.
    pub fn acknowledged(self) -> (result: Result<(), ApiError>)
        ensures
            match result {
                Ok(_) => is_success(self.status@),
                Err(ApiError::Application(text)) => !is_success(self.status@) && text
                    == self.message,
                Err(_) => false,
            },
    {
        if self.succeeded() {
            Ok(())
        } else {
            Err(ApiError::Application(self.message))
        }
    }
}

/// The message of the envelope around the usage of a session.
pub open spec fn usage_message() -> Seq<char> {
    "获取使用情况成功"@
}

/// The message of the envelope around the user of a session.
pub open spec fn vendor_user_message() -> Seq<char> {
    "获取用户信息成功"@
}

fn vendor_envelope<T>(payload: T, message: &str) -> (response: ApiResponse<T>)
    ensures
        is_success(response.status@),
        response.message@ == message@,
        response.data == Some(payload),
{
    ApiResponse {
        status: String::from_str("success"),
        message: String::from_str(message),
        data: Some(payload),
    }
}

/// The envelope that this client puts around the usage that the editor
/// vendor reports, which comes without one: the status of a success, a
/// fixed message, and the usage as the data.
pub fn usage_envelope<T>(usage: T) -> (response: ApiResponse<T>)
    ensures
        is_success(response.status@),
        response.message@ == usage_message(),
        response.data == Some(usage),
{
    vendor_envelope(usage, "获取使用情况成功")
}

/// The envelope that this client puts around the user that the editor
/// vendor reports, which comes without one: the status of a success, a
/// fixed message, and the user as the data.
pub fn vendor_user_envelope<T>(user: T) -> (response: ApiResponse<T>)
    ensures
        is_success(response.status@),
        response.message@ == vendor_user_message(),
        response.data == Some(user),
{
    vendor_envelope(user, "获取用户信息成功")
}

impl AccountDetail {
    /// The account that the record `record` shows to the user: its token
    /// split into the identifier and the secret. A token that is no
    /// credential is a decode failure with the reason.
    pub fn from_record(record: AccountInfo) -> (result: Result<AccountDetail, ApiError>)
        ensures
            match result {
                Ok(detail) => detail.email == record.email && split_spec(record.token@) == Ok::<
                    (Seq<char>, Seq<char>),
                    MalformedCredential,
                >((detail.user_id@, detail.token@)),
                Err(ApiError::Decode(DecodeFailure::Credential(reason))) => split_spec(
                    record.token@,
                ) == Err::<(Seq<char>, Seq<char>), MalformedCredential>(reason),
                Err(_) => false,
            },
    {
        match split(record.token.as_str()) {
            Ok((user_id, token)) => Ok(AccountDetail { email: record.email, user_id, token }),
            Err(reason) => Err(ApiError::Decode(DecodeFailure::Credential(reason))),
        }
    }
}

/// The outcome of the account lookup: the account of the envelope, with its
/// credential taken apart.
pub fn account_detail(response: ApiResponse<AccountInfo>) -> (result: Result<
    AccountDetail,
    ApiError,
>)
    ensures
        match result {
            Ok(detail) => {
                &&& is_success(response.status@)
                &&& response.data matches Some(record)
                &&& detail.email == record.email
                &&& split_spec(record.token@) == Ok::<(Seq<char>, Seq<char>), MalformedCredential>(
                    (detail.user_id@, detail.token@),
                )
            },
            Err(ApiError::Application(text)) => !is_success(response.status@) && text
                == response.message,
            Err(ApiError::Decode(DecodeFailure::MissingData)) => is_success(response.status@)
                && response.data is None,
            Err(ApiError::Decode(DecodeFailure::Credential(reason))) => {
                &&& is_success(response.status@)
                &&& response.data matches Some(record)
                &&& split_spec(record.token@) == Err::<(Seq<char>, Seq<char>), MalformedCredential>(
                    reason,
                )
            },
            Err(_) => false,
        },
{
    match response.into_result() {
        Ok(record) => AccountDetail::from_record(record),
        Err(error) => Err(error),
    }
}

} // verus!
