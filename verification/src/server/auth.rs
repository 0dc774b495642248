//! Bearer-token authentication of clipboard requests.
//!
//! Every request must carry an `Authorization` header of the form
//! `Bearer <token>`, where the token is the one the server was started with.

use vstd::prelude::*;

use crate::server::models::ErrorResponse;
use crate::text::{has_prefix, push_char, starts_with, str_equal};

verus! {

/// Environment variable name for the authentication token.
pub const TOKEN_ENV_VAR: &'static str = "CLIPSHARE_TOKEN";

/// Why a request was refused.
#[derive(Debug, PartialEq, Eq, Clone, Copy)]
pub enum AuthRejection {
    /// No `Authorization` header, or one that is not visible ASCII text.
    MissingHeader,
    /// The header does not start with `Bearer `.
    InvalidFormat,
    /// The token after `Bearer ` is not the expected one.
    InvalidToken,
}

impl AuthRejection {
    /// Every refusal is answered with `401 Unauthorized`.
    pub fn status_code(&self) -> (code: u16)
        ensures
            code == 401,
    {
        401
    }

    /// The status and JSON body a refused request is answered with.
    pub fn into_response(&self) -> (r: (u16, ErrorResponse))
        ensures
            r.0 == 401,
            r.1.status@ == "error"@,
            r.1.message@ == "Unauthorized request"@,
    {
        (401, ErrorResponse::new("Unauthorized request"))
    }

    /// The reason logged for the refusal.
    pub fn reason(&self) -> (s: &'static str)
        ensures
            s@ == match self {
                AuthRejection::MissingHeader => "Unauthorized request: Missing Authorization header"@,
                AuthRejection::InvalidFormat => "Unauthorized request: Invalid Authorization header format"@,
                AuthRejection::InvalidToken => "Unauthorized request: Invalid token"@,
            },
    {
        match self {
            AuthRejection::MissingHeader => "Unauthorized request: Missing Authorization header",
            AuthRejection::InvalidFormat => "Unauthorized request: Invalid Authorization header format",
            AuthRejection::InvalidToken => "Unauthorized request: Invalid token",
        }
    }
}

/// A header byte that may appear in header text: visible ASCII or a tab.
pub open spec fn is_visible_ascii(b: u8) -> bool {
    (32 <= b && b < 127) || b == 9
}

/// The text of a raw header value: present exactly when every byte is visible
/// ASCII, each byte then standing for one character.
pub open spec fn header_text_spec(raw: Seq<u8>) -> Option<Seq<char>> {
    if forall|i: int| 0 <= i < raw.len() ==> is_visible_ascii(#[trigger] raw[i]) {
        Some(raw.map_values(|b: u8| b as char))
    } else {
        None
    }
}

/// The scheme prefix of an `Authorization` header.
pub open spec fn bearer_prefix() -> Seq<char> {
    "Bearer "@
}

/// The authentication decision for a header text (if any) and the expected token.
pub open spec fn auth_decision(header: Option<Seq<char>>, token: Seq<char>) -> Result<
    (),
    AuthRejection,
> {
    match header {
        None => Err(AuthRejection::MissingHeader),
        Some(h) => if !has_prefix(h, bearer_prefix()) {
            Err(AuthRejection::InvalidFormat)
        } else if h.subrange(bearer_prefix().len() as int, h.len() as int) != token {
            Err(AuthRejection::InvalidToken)
        } else {
            Ok(())
        },
    }
}

/// The text of a raw header value, as the HTTP library reads it: refused
/// unless every byte is visible ASCII.
pub fn header_text(raw: &[u8]) -> (r: Option<String>)
    ensures
        match r {
            Some(s) => header_text_spec(raw@) == Some(s@),
            None => header_text_spec(raw@) is None,
        },
{
    let n = raw.len();
    let mut s = String::new();
    let mut i: usize = 0;
    while i < n
        invariant
            n == raw@.len(),
            i <= n,
            s@ =~= raw@.subrange(0, i as int).map_values(|b: u8| b as char),
            forall|j: int| 0 <= j < i ==> is_visible_ascii(#[trigger] raw@[j]),
        decreases n - i,
    {
        let b = raw[i];
        if !((32 <= b && b < 127) || b == 9) {
            assert(!is_visible_ascii(raw@[i as int]));
            return None;
        }
        push_char(&mut s, b as char);
        assert(raw@.subrange(0, i + 1).drop_last() =~= raw@.subrange(0, i as int));
        i = i + 1;
    }
    assert(raw@.subrange(0, n as int) =~= raw@);
    Some(s)
}

/// Checks an `Authorization` header text against the expected token.
pub fn check_authorization(header: Option<&str>, expected_token: &str) -> (r: Result<
    (),
    AuthRejection,
>)
    ensures
        r == auth_decision(
            match header {
                Some(h) => Some(h@),
                None => None,
            },
            expected_token@,
        ),
{
    match header {
        None => Err(AuthRejection::MissingHeader),
        Some(h) => {
            let prefix = "Bearer ";
            if !starts_with(h, prefix) {
                return Err(AuthRejection::InvalidFormat);
            }
            let provided = h.substring_char(prefix.unicode_len(), h.unicode_len());
            if !str_equal(provided, expected_token) {
                return Err(AuthRejection::InvalidToken);
            }
            Ok(())
        },
    }
}

/// The authentication step run before every clipboard request: the raw bytes
/// of the `Authorization` header (if the request has one) against the token
/// the server was started with.
pub fn authorize_request(raw_header: Option<&[u8]>, expected_token: &str) -> (r: Result<
    (),
    AuthRejection,
>)
    ensures
        r == auth_decision(
            match raw_header {
                Some(raw) => header_text_spec(raw@),
                None => None,
            },
            expected_token@,
        ),
{
    match raw_header {
        None => Err(AuthRejection::MissingHeader),
        Some(raw) => match header_text(raw) {
            None => Err(AuthRejection::MissingHeader),
            Some(text) => check_authorization(Some(text.as_str()), expected_token),
        },
    }
}

/// The message given when the token's environment variable is not set.
pub open spec fn missing_token_message() -> Seq<char> {
    "CLIPSHARE_TOKEN environment variable not set. Please set it using: export CLIPSHARE_TOKEN=\"your_token\""@
}

/// The server's token from the value of `CLIPSHARE_TOKEN` (if set); any set
/// value, the empty one too, is accepted.
pub fn load_auth_token(env_value: Option<String>) -> (r: Result<String, String>)
    ensures
        match env_value {
            Some(v) => r == Ok::<String, String>(v),
            None => r matches Err(msg) && msg@ == missing_token_message(),
        },
{
    match env_value {
        Some(v) => Ok(v),
        None => Err(
            String::from_str(
                "CLIPSHARE_TOKEN environment variable not set. Please set it using: export CLIPSHARE_TOKEN=\"your_token\"",
            ),
        ),
    }
}


/// A header is accepted exactly when it reads `Bearer ` followed by the
/// expected token; a request without one is refused as missing.
pub proof fn accepted_exactly_with_bearer_token(header: Option<Seq<char>>, token: Seq<char>)
    ensures
        auth_decision(header, token) is Ok <==> header == Some(bearer_prefix() + token),
        header is None ==> auth_decision(header, token) == Err::<(), AuthRejection>(
            AuthRejection::MissingHeader,
        ),
{
    if let Some(h) = header {
        let p = bearer_prefix();
        if h == p + token {
            assert(h.subrange(0, p.len() as int) =~= p);
            assert(h.subrange(p.len() as int, h.len() as int) =~= token);
        }
        if auth_decision(header, token) is Ok {
            assert(h =~= p + token);
        }
    }
}

/// At the level of raw header bytes: a request is let through exactly when its
/// header bytes are visible ASCII and spell `Bearer ` followed by the token.
pub proof fn raw_header_accepted_exactly_with_bearer_token(raw: Seq<u8>, token: Seq<char>)
    ensures
        auth_decision(header_text_spec(raw), token) is Ok <==> (forall|i: int|
            0 <= i < raw.len() ==> is_visible_ascii(#[trigger] raw[i])) && raw.map_values(
            |b: u8| b as char,
        ) == bearer_prefix() + token,
{
    accepted_exactly_with_bearer_token(header_text_spec(raw), token);
}

/// Every header made of bytes in `32..=126` or tabs that spells `Bearer `
/// followed by the token is accepted: any visible ASCII token, such as a
/// base64 token with `+`, `/` and `=`, gets through.
pub proof fn visible_ascii_bearer_header_accepted(raw: Seq<u8>, token: Seq<char>)
    requires
        forall|i: int| 0 <= i < raw.len() ==> (32 <= #[trigger] raw[i] && raw[i] < 127) || raw[i] == 9,
        raw.map_values(|b: u8| b as char) == "Bearer "@ + token,
    ensures
        auth_decision(header_text_spec(raw), token) == Ok::<(), AuthRejection>(()),
{
    assert(header_text_spec(raw) == Some(raw.map_values(|b: u8| b as char)));
    accepted_exactly_with_bearer_token(Some("Bearer "@ + token), token);
}

/// A header holding a byte outside `32..=126` other than a tab is refused as
/// missing, whatever it spells.
pub proof fn invisible_byte_refuses_header(raw: Seq<u8>, token: Seq<char>, k: int)
    requires
        0 <= k < raw.len(),
        !((32 <= raw[k] && raw[k] < 127) || raw[k] == 9),
    ensures
        auth_decision(header_text_spec(raw), token) == Err::<(), AuthRejection>(
            AuthRejection::MissingHeader,
        ),
{
}

} // verus!
