//! The typed variables: marker types for the builtin variables.

pub use crate::models::fox_variables::builtins::{BatTemperature, LoadsPower, PvPower, RunningState, SoC, SoH};
