//! Classification of FoxESS Cloud responses into success or error.

use vstd::prelude::*;
use crate::error::FoxError;
use crate::models::dto::FoxResponse;
use crate::text::{take_chars, truncate_chars};

verus! {

/// The longest body, in characters, that an [`FoxError::HttpStatus`] keeps.
pub const MAX_ERROR_BODY_CHARS: usize = 512;

/// Whether an HTTP status code reports success (2xx).
pub open spec fn is_success_status(status: u16) -> bool {
    200 <= status && status <= 299
}

/// Whether `r` is what a response with the given status, decoded envelope
/// and body gives:
/// * a success status with an envelope whose `errno` is 0 gives the body;
/// * a success status with a non-zero `errno` gives [`FoxError::FoxCloud`];
/// * a success status whose body is no envelope gives [`FoxError::JsonParseError`];
/// * any other status with a non-zero `errno` in its body gives [`FoxError::FoxCloud`];
/// * any other status gives [`FoxError::HttpStatus`] with the body truncated
///   to [`MAX_ERROR_BODY_CHARS`] characters.
pub open spec fn response_outcome(status: u16, envelope: Result<FoxResponse, String>, body: Seq<char>,
    r: Result<String, FoxError>) -> bool
{
    if is_success_status(status) {
        match envelope {
            Ok(e) => if e.errno != 0 {
                r matches Err(FoxError::FoxCloud { errno, msg }) && errno == e.errno && msg@ == e.msg@
            } else {
                r matches Ok(b) && b@ == body
            },
            Err(m) => r matches Err(FoxError::JsonParseError(pm)) && pm@ == m@,
        }
    } else {
        match envelope {
            Ok(e) if e.errno != 0 =>
                r matches Err(FoxError::FoxCloud { errno, msg }) && errno == e.errno && msg@ == e.msg@,
            _ => r matches Err(FoxError::HttpStatus { status: s, body: b })
                && s == status && b@ == take_chars(body, MAX_ERROR_BODY_CHARS as nat),
        }
    }
}

/// Validates a response of FoxESS Cloud.
///
/// # Arguments
/// * `status` - The HTTP status code of the response.
/// * `envelope` - The body decoded as a FoxESS Cloud envelope, or the message
///   of the decoding error.
/// * `body` - The body as received.
///
/// # Returns
/// * `Result<String, FoxError>` - The body if the response is successful.
pub fn check_response(status: u16, envelope: Result<FoxResponse, String>, body: String) -> (r: Result<String, FoxError>)
    ensures
        response_outcome(status, envelope, body@, r),
{
    if 200 <= status && status <= 299 {
        match envelope {
            Ok(e) => {
                if e.errno != 0 {
                    Err(FoxError::FoxCloud { errno: e.errno, msg: e.msg })
                } else {
                    Ok(body)
                }
            },
            Err(m) => Err(FoxError::JsonParseError(m)),
        }
    } else {
        match envelope {
            Ok(e) if e.errno != 0 => Err(FoxError::FoxCloud { errno: e.errno, msg: e.msg }),
            _ => Err(FoxError::HttpStatus {
                status,
                body: truncate_chars(body.as_str(), MAX_ERROR_BODY_CHARS),
            }),
        }
    }
}

/// A response whose status is not 2xx, and whose body is not an envelope with
/// a non-zero `errno`, is reported as an [`FoxError::HttpStatus`] error that
/// carries that status; it is transient exactly for 429 and 5xx. It is never
/// reported as a JSON error, whatever the body holds.
pub proof fn lemma_failed_status_reported(status: u16, envelope: Result<FoxResponse, String>, body: Seq<char>,
    r: Result<String, FoxError>)
    requires
        response_outcome(status, envelope, body, r),
        !(200 <= status && status <= 299),
        !(envelope matches Ok(e) && e.errno != 0),
    ensures
        r matches Err(FoxError::HttpStatus { status: s, .. }) && s == status,
        r matches Err(e) && (e.transient() <==> (status == 429 || (500 <= status && status <= 599))),
{
}

/// A response whose body is an envelope with a non-zero `errno` is reported
/// as that FoxCloud error, whatever its status.
pub proof fn lemma_cloud_error_reported(status: u16, envelope: Result<FoxResponse, String>, body: Seq<char>,
    r: Result<String, FoxError>)
    requires
        response_outcome(status, envelope, body, r),
        envelope matches Ok(e) && e.errno != 0,
    ensures
        r matches Err(FoxError::FoxCloud { errno, msg })
            && errno == envelope->Ok_0.errno && msg@ == envelope->Ok_0.msg@,
{
}

/// A response with a success status is an error exactly when its envelope
/// is missing or carries a non-zero `errno`, and a response with any other
/// status is always an error.
pub proof fn lemma_response_success(status: u16, envelope: Result<FoxResponse, String>, body: Seq<char>,
    r: Result<String, FoxError>)
    requires
        response_outcome(status, envelope, body, r),
    ensures
        r is Ok <==> (is_success_status(status) && (envelope matches Ok(e) && e.errno == 0)),
        r matches Ok(b) ==> b@ == body,
{
}

/// The body that an [`FoxError::HttpStatus`] keeps is at most
/// [`MAX_ERROR_BODY_CHARS`] characters long.
pub proof fn lemma_error_body_bounded(status: u16, envelope: Result<FoxResponse, String>, body: Seq<char>,
    r: Result<String, FoxError>)
    requires
        response_outcome(status, envelope, body, r),
    ensures
        r matches Err(FoxError::HttpStatus { body: b, .. }) ==> b@.len() <= MAX_ERROR_BODY_CHARS,
{
}

} // verus!
