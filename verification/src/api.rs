//! The token-refresh exchange with the service: the request and response
//! shapes, and the decision over the HTTP outcome. The transport itself
//! lives with the caller, which hands in the status code and body text.

use crate::errors::SyncError;
use crate::json::{spec_string_field, string_field};
use crate::strutil::spec_u64_dec;
use vstd::prelude::*;

verus! {

/// Body of a refresh request: the current token.
#[derive(Debug)]
pub struct RefreshTokenRequest {
    pub token: String,
}

/// Body of a successful refresh response: the new token.
#[derive(Debug)]
pub struct RefreshTokenResponse {
    pub token: String,
}

/// Body of a failed response: an error code and an optional message.
#[derive(Debug)]
pub struct ErrorResponse {
    pub error: String,
    pub message: Option<String>,
}

/// The new token carried by a refresh response body, when the body is a
/// JSON object whose `token` field is a string.
pub open spec fn spec_refresh_token_of(body: Seq<char>) -> Option<Seq<char>> {
    match spec_string_field(body, "token"@) {
        Some(Some(Some(t))) => Some(t),
        _ => None,
    }
}

/// The message an error response body carries: the body must be a JSON
/// object with a string `error` field; the `message` field contributes its
/// string when present, and the empty string otherwise or when the body is
/// not such an object.
pub open spec fn spec_error_message_of(body: Seq<char>) -> Seq<char> {
    match (spec_string_field(body, "error"@), spec_string_field(body, "message"@)) {
        (Some(Some(Some(_))), Some(m)) => match m {
            Some(Some(msg)) => msg,
            _ => Seq::empty(),
        },
        _ => Seq::empty(),
    }
}

/// Parses a refresh response body into its structured form, `None` when it
/// is not a JSON object carrying a string `token`.
pub fn parse_refresh_response(body: &str) -> (r: Option<RefreshTokenResponse>)
    ensures
        match spec_refresh_token_of(body@) {
            Some(t) => r matches Some(resp) && resp.token@ == t,
            None => r is None,
        },
{
    let v = crate::strutil::str_to_chars(body);
    match string_field(&v, "token") {
        Some(Some(Some(t))) => Some(RefreshTokenResponse { token: t }),
        _ => None,
    }
}

/// Parses an error response body, `None` when it carries no string `error`
/// field or the `message` field is neither a string nor null.
pub fn parse_error_response(body: &str) -> (r: Option<ErrorResponse>)
    ensures
        r matches Some(resp) ==> (match resp.message {
            Some(m) => m@ == spec_error_message_of(body@),
            None => spec_error_message_of(body@) == Seq::<char>::empty(),
        }),
        r is Some <==> (spec_string_field(body@, "error"@) matches Some(Some(Some(t)))
            && spec_string_field(body@, "message"@) is Some),
{
    let v = crate::strutil::str_to_chars(body);
    let error = match string_field(&v, "error") {
        Some(Some(Some(e))) => e,
        _ => {
            return None;
        },
    };
    match string_field(&v, "message") {
        Some(Some(Some(m))) => Some(ErrorResponse { error, message: Some(m) }),
        Some(_) => Some(ErrorResponse { error, message: None }),
        None => None,
    }
}

/// Decides the refresh exchange from the response's status code and body:
/// 200 with a well-formed body yields the new token; 200 with a malformed
/// body is a transport-class failure; 401 means the credential is no longer
/// accepted; any other status is a generic failure carrying the status and
/// the body's message.
pub fn refresh_outcome(status: u16, body: &str) -> (r: Result<String, SyncError>)
    ensures
        status == 200 ==> (match spec_refresh_token_of(body@) {
            Some(t) => r matches Ok(s) && s@ == t,
            None => r matches Err(e) && (e matches SyncError::Network(m) && m@
                == "malformed refresh response"@),
        }),
        status == 401 ==> (r matches Err(e) && e is AuthenticationRequired),
        status != 200 && status != 401 ==> (r matches Err(e) && (e matches SyncError::Other(m)
            && m@ == "Token refresh failed with status "@ + spec_u64_dec(status as int) + ": "@
            + spec_error_message_of(body@))),
{
    if status == 200 {
        match parse_refresh_response(body) {
            Some(resp) => Ok(resp.token),
            None => Err(SyncError::Network("malformed refresh response".to_owned())),
        }
    } else if status == 401 {
        Err(SyncError::AuthenticationRequired)
    } else {
        let mut msg = "Token refresh failed with status ".to_owned();
        let digits = crate::strutil::u64_to_string(status as u64);
        msg.append(digits.as_str());
        msg.append(": ");
        match parse_error_response(body) {
            Some(resp) => match resp.message {
                Some(m) => {
                    msg.append(m.as_str());
                },
                None => (),
            },
            None => (),
        }
        proof {
            assert(msg@ =~= "Token refresh failed with status "@ + spec_u64_dec(status as int)
                + ": "@ + spec_error_message_of(body@));
        }
        Err(SyncError::Other(msg))
    }
}

} // verus!
