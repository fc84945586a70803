//! Settings of the inverter: the [`FoxSettings`](id::FoxSettings) identifiers and the typed
//! specifications used by typed reads and writes of a setting.

pub mod id;
pub mod specification;
pub mod builtins;
