//! The work modes of the FoxESS scheduler.

pub mod id;
