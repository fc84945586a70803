//! Variables of the inverter: the [`FoxVariables`](id::FoxVariables) identifiers and the
//! marker types used by typed reads of a variable.

pub mod id;
pub mod builtins;
