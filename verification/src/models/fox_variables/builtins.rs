//! Builtin marker types used together with typed reads of a variable; each
//! names one builtin variable.

use vstd::prelude::*;

verus! {

/// Specification for the `PvPower` variable.
pub struct PvPower;

/// Specification for the `LoadsPower` variable.
pub struct LoadsPower;

/// Specification for the `SoC` variable.
pub struct SoC;

/// Specification for the `SoH` variable.
pub struct SoH;

/// Specification for the `BatTemperature` variable.
pub struct BatTemperature;

/// Specification for the `RunningState` variable.
pub struct RunningState;

} // verus!
