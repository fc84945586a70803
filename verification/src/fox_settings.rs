//! The typed settings: marker types for the builtin settings and the traits
//! that describe how a setting's value is read and written.

pub use crate::models::fox_settings::builtins::{MaxSoc, MinSocOnGrid, WorkMode};
pub use crate::models::fox_settings::specification::{SettableSettingSpec, SettingSpec};
