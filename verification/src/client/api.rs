//! The client's side of the exchange with the server: the `Authorization`
//! header it sends, and how it reads the status of the reply.

use vstd::prelude::*;

use crate::server::auth::{accepted_exactly_with_bearer_token, auth_decision, bearer_prefix};
use crate::server::models::AppErrorModel;
use crate::text::{decimal, decimal_string};

verus! {

/// The `Authorization` header value for a token.
pub fn bearer_header(auth_token: &str) -> (h: String)
    ensures
        h@ == bearer_prefix() + auth_token@,
{
    let mut h = String::from_str("Bearer ");
    h.append(auth_token);
    h
}

/// What a reply's status says about the server's clipboard.
#[derive(Debug, PartialEq, Eq, Clone, Copy)]
pub enum ServerReply {
    /// `200`: the body holds the entry.
    Content,
    /// `404`: the server holds no entry yet.
    NoContent,
}

/// Why fetching the entry failed.
#[derive(Debug, PartialEq, Eq, Clone, Copy)]
pub enum FetchError {
    /// The request could not be sent.
    ConnectionFailed,
    /// The reply's body could not be read.
    ReadFailed,
    /// A `200` reply whose body is not a clipboard entry.
    ParseFailed,
    /// `401`: the server refused the token.
    AuthenticationFailed,
    /// `500`: the server failed.
    ServerError,
    /// Any other status.
    UnexpectedStatus(u16),
}

/// How a reply with the given status is read.
pub open spec fn reply_for_status(status: u16) -> Result<ServerReply, FetchError> {
    if status == 200 {
        Ok(ServerReply::Content)
    } else if status == 404 {
        Ok(ServerReply::NoContent)
    } else if status == 401 {
        Err(FetchError::AuthenticationFailed)
    } else if status == 500 {
        Err(FetchError::ServerError)
    } else {
        Err(FetchError::UnexpectedStatus(status))
    }
}

/// Reads the status of the server's reply.
pub fn classify_status(status: u16) -> (r: Result<ServerReply, FetchError>)
    ensures
        r == reply_for_status(status),
{
    if status == 200 {
        Ok(ServerReply::Content)
    } else if status == 404 {
        Ok(ServerReply::NoContent)
    } else if status == 401 {
        Err(FetchError::AuthenticationFailed)
    } else if status == 500 {
        Err(FetchError::ServerError)
    } else {
        Err(FetchError::UnexpectedStatus(status))
    }
}

/// What `reqwest::StatusCode::canonical_reason` gives for a status code that
/// `StatusCode::from_u16` accepts; nothing for one it refuses.
pub uninterp spec fn canonical_reason_of(code: u16) -> Option<Seq<char>>;

/// The reason phrase of a status code, through `reqwest::StatusCode::from_u16`
/// and `StatusCode::canonical_reason`; the contract names the result.
#[verifier::external_body]
fn canonical_reason(code: u16) -> (r: Option<&'static str>)
    ensures
        match r {
            Some(s) => canonical_reason_of(code) == Some(s@),
            None => canonical_reason_of(code) is None,
        },
{
    match reqwest::StatusCode::from_u16(code) {
        Ok(status) => status.canonical_reason(),
        Err(_) => None,
    }
}

/// How a status is shown: the code, a space and its reason phrase.
pub open spec fn status_text(code: u16) -> Seq<char> {
    decimal(code as nat) + " "@ + match canonical_reason_of(code) {
        Some(reason) => reason,
        None => "<unknown status code>"@,
    }
}

impl FetchError {
    /// The message reported for the failure.
    pub open spec fn message_spec(self) -> Seq<char> {
        match self {
            FetchError::ConnectionFailed => "Failed to connect to server"@,
            FetchError::ReadFailed => "Failed to read response body"@,
            FetchError::ParseFailed => "Failed to parse clipboard content"@,
            FetchError::AuthenticationFailed => "Authentication failed - invalid or missing token"@,
            FetchError::ServerError => "Internal server error - check server logs"@,
            FetchError::UnexpectedStatus(code) => "Unexpected server response: "@ + status_text(
                code,
            ),
        }
    }

    /// The message reported for the failure.
    pub fn message(&self) -> (m: String)
        ensures
            m@ == self.message_spec(),
    {
        match self {
            FetchError::ConnectionFailed => String::from_str("Failed to connect to server"),
            FetchError::ReadFailed => String::from_str("Failed to read response body"),
            FetchError::ParseFailed => String::from_str("Failed to parse clipboard content"),
            FetchError::AuthenticationFailed => String::from_str(
                "Authentication failed - invalid or missing token",
            ),
            FetchError::ServerError => String::from_str("Internal server error - check server logs"),
            FetchError::UnexpectedStatus(code) => {
                let mut m = String::from_str("Unexpected server response: ");
                let digits = decimal_string(*code as u64);
                m.append(digits.as_str());
                m.append(" ");
                match canonical_reason(*code) {
                    Some(reason) => m.append(reason),
                    None => m.append("<unknown status code>"),
                }
                m
            },
        }
    }
}


/// The header the client sends with a token is accepted by a server started
/// with the same token.
pub proof fn client_header_accepted_by_server(token: Seq<char>)
    ensures
        auth_decision(Some(bearer_prefix() + token), token) == Ok::<(), crate::server::auth::AuthRejection>(()),
{
    accepted_exactly_with_bearer_token(Some(bearer_prefix() + token), token);
}

/// How the client reads the server's refusals and errors: a missing entry as
/// no content, an internal error as a server error, and the `401` of a refused
/// token as an authentication failure.
pub proof fn server_errors_as_read_by_client(e: AppErrorModel)
    ensures
        e is NoContent ==> reply_for_status(e.status()) == Ok::<ServerReply, FetchError>(
            ServerReply::NoContent,
        ),
        e is InternalServerError ==> reply_for_status(e.status()) == Err::<ServerReply, FetchError>(
            FetchError::ServerError,
        ),
        reply_for_status(401) == Err::<ServerReply, FetchError>(FetchError::AuthenticationFailed),
{
}

} // verus!
