//! Error types and result handling for the FoxESS client.
//!
//! This module provides the [`FoxError`] enum, which holds all failures that
//! can occur when interacting with the FoxCloud API or processing its data.

use vstd::prelude::*;
use crate::text::{decimal, u64_to_decimal};

verus! {

/// What the client learned of a failed transport: the error's message and
/// whether it was a timeout or a failure to connect.
#[derive(Debug)]
pub struct TransportError {
    /// The error's message.
    pub message: String,
    /// Whether the request timed out.
    pub is_timeout: bool,
    /// Whether the connection could not be established.
    pub is_connect: bool,
}

/// Custom error types for the FoxESS client.
///
/// This enum is `#[non_exhaustive]`: new variants may be added in future releases,
/// so `match` expressions over it must include a wildcard arm.
#[derive(Debug)]
#[non_exhaustive]
pub enum FoxError {
    /// An application-level error reported by the FoxCloud API.
    ///
    /// The request reached FoxCloud and it answered, but rejected it with a
    /// non-zero `errno`.
    FoxCloud {
        /// The `errno` field from the FoxCloud response.
        errno: u32,
        /// The `msg` field from the FoxCloud response.
        msg: String,
    },
    /// The FoxCloud API replied with a non-success HTTP status.
    ///
    /// This is a transport-level failure: the response either carried no
    /// FoxCloud error payload at all, or one that could not be parsed.
    HttpStatus {
        /// The HTTP status code of the response.
        status: u16,
        /// The response body, truncated if long.
        body: String,
    },
    /// An error occurred during an HTTP request.
    ReqwestError(TransportError),
    /// An error occurred while parsing JSON.
    JsonParseError(String),
    /// An error occurred while parsing a date or time.
    ChronoParseError(String),
    /// An error occurred while parsing a setting value.
    SettingParseError {
        /// The name of the setting.
        setting: &'static str,
        /// The raw value that failed to parse.
        value: String,
        /// The error message.
        error: String,
    },
    /// An error occurred while converting a variable value.
    VariableConversionError {
        /// The name of the variable.
        variable: &'static str,
        /// The raw value that failed to convert.
        value: String,
        /// The error message.
        error: String,
    },
    /// The requested variable was not found in the API response.
    VariableNotFoundError {
        /// The name of the variable.
        variable: &'static str,
    },
    /// An error occurred while building a schedule.
    ScheduleBuildError(String),
}

impl FoxError {
    /// Whether retrying the request that failed with this error might succeed:
    /// HTTP 429, HTTP 5xx, and timeouts or failures to connect.
    pub open spec fn transient(&self) -> bool {
        match self {
            FoxError::HttpStatus { status, .. } => *status == 429 || (500 <= *status && *status <= 599),
            FoxError::ReqwestError(e) => e.is_timeout || e.is_connect,
            _ => false,
        }
    }

    /// The text by which the error presents itself.
    pub open spec fn message_spec(&self) -> Seq<char> {
        match self {
            FoxError::FoxCloud { errno, msg } =>
                "FoxCloud: errno="@ + decimal(*errno as nat) + ", msg="@ + msg@,
            FoxError::HttpStatus { status, body } =>
                "HttpStatus: status="@ + decimal(*status as nat) + ", body="@ + body@,
            FoxError::ReqwestError(e) => "ReqwestError: "@ + e.message@,
            FoxError::JsonParseError(m) => "JsonParseError: "@ + m@,
            FoxError::ChronoParseError(m) => "ChronoParseError: "@ + m@,
            FoxError::SettingParseError { setting, value, error } =>
                "SettingParseError: setting="@ + setting@ + ", value="@ + value@ + ", error="@ + error@,
            FoxError::VariableConversionError { variable, value, error } =>
                "VariableConversionError: variable="@ + variable@ + ", value="@ + value@ + ", error="@ + error@,
            FoxError::VariableNotFoundError { variable } =>
                "VariableNotFoundError: variable="@ + variable@,
            FoxError::ScheduleBuildError(m) => "ScheduleBuildError: "@ + m@,
        }
    }

    /// Returns the FoxCloud `errno`, if this was an application-level API error.
    ///
    /// Use this to react to specific FoxCloud error codes without matching on
    /// the variant or inspecting the formatted message.
    pub fn errno(&self) -> (r: Option<u32>)
        ensures
            r == (match self {
                FoxError::FoxCloud { errno, .. } => Some(*errno),
                _ => None,
            }),
    {
        match self {
            FoxError::FoxCloud { errno, .. } => Some(*errno),
            _ => None,
        }
    }

    /// Returns the HTTP status code, if the request failed at the transport level.
    pub fn http_status(&self) -> (r: Option<u16>)
        ensures
            r == (match self {
                FoxError::HttpStatus { status, .. } => Some(*status),
                _ => None,
            }),
    {
        match self {
            FoxError::HttpStatus { status, .. } => Some(*status),
            _ => None,
        }
    }

    /// Returns whether retrying the same request might plausibly succeed.
    ///
    /// Covers server-side failures (HTTP 5xx), rate limiting (HTTP 429), and
    /// connection or timeout failures. Application-level FoxCloud errors and
    /// local parsing errors are never treated as transient, since retrying an
    /// identical request cannot change their outcome.
    pub fn is_transient(&self) -> (r: bool)
        ensures
            r == self.transient(),
    {
        match self {
            FoxError::HttpStatus { status, .. } => *status == 429 || (500 <= *status && *status <= 599),
            FoxError::ReqwestError(e) => e.is_timeout || e.is_connect,
            _ => false,
        }
    }

    /// Returns the text by which the error presents itself, e.g.
    /// `FoxCloud: errno=40256, msg=...`.
    pub fn message(&self) -> (r: String)
        ensures
            r@ == self.message_spec(),
    {
        let mut s = String::new();
        match self {
            FoxError::FoxCloud { errno, msg } => {
                s.append("FoxCloud: errno=");
                s.append(u64_to_decimal(*errno as u64).as_str());
                s.append(", msg=");
                s.append(msg.as_str());
            },
            FoxError::HttpStatus { status, body } => {
                s.append("HttpStatus: status=");
                s.append(u64_to_decimal(*status as u64).as_str());
                s.append(", body=");
                s.append(body.as_str());
            },
            FoxError::ReqwestError(e) => {
                s.append("ReqwestError: ");
                s.append(e.message.as_str());
            },
            FoxError::JsonParseError(m) => {
                s.append("JsonParseError: ");
                s.append(m.as_str());
            },
            FoxError::ChronoParseError(m) => {
                s.append("ChronoParseError: ");
                s.append(m.as_str());
            },
            FoxError::SettingParseError { setting, value, error } => {
                s.append("SettingParseError: setting=");
                s.append(*setting);
                s.append(", value=");
                s.append(value.as_str());
                s.append(", error=");
                s.append(error.as_str());
            },
            FoxError::VariableConversionError { variable, value, error } => {
                s.append("VariableConversionError: variable=");
                s.append(*variable);
                s.append(", value=");
                s.append(value.as_str());
                s.append(", error=");
                s.append(error.as_str());
            },
            FoxError::VariableNotFoundError { variable } => {
                s.append("VariableNotFoundError: variable=");
                s.append(*variable);
            },
            FoxError::ScheduleBuildError(m) => {
                s.append("ScheduleBuildError: ");
                s.append(m.as_str());
            },
        }
        assert(s@ =~= self.message_spec());
        s
    }
}

/// Application-level FoxCloud errors and local parsing errors are never
/// transient: retrying the identical request cannot change their outcome.
/// Only HTTP and transport failures can be.
pub proof fn lemma_only_transport_errors_transient(e: FoxError)
    ensures
        e.transient() ==> (e is HttpStatus || e is ReqwestError),
        e is FoxCloud ==> !e.transient(),
{
}

} // verus!
