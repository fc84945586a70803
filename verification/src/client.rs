//! The protocol side of the FoxESS Open API client.
//!
//! [`helper::FoxHelper`] prepares the requests that the client sends
//! (paths, payloads, signed headers) and turns the decoded responses into
//! the library's models. Sending the requests and encoding or decoding JSON
//! is left to the caller.

pub mod helper;
pub mod schedule;
pub mod time;
pub mod signing;
pub mod transform;
pub mod responses;
