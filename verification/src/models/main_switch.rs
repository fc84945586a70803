//! The state of the scheduler's main switch, as FoxESS Cloud reports it.

use vstd::prelude::*;

verus! {

/// Represents the Main Switch Status state in the API.
#[derive(Debug, Clone, Copy, PartialEq, Eq, Structural)]
pub struct MainSwitchStatus {
    /// Whether the main switch is supported (true) or not (false).
    pub support: bool,
    /// Whether the main switch is enabled (true) or disabled (false).
    pub enable: bool,
}

} // verus!
