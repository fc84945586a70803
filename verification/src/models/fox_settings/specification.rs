//! The [`SettingSpec`] trait, implemented by marker types used with typed
//! reads of a setting, and [`SettableSettingSpec`], for typed writes.

use vstd::prelude::*;
use crate::error::FoxError;
use crate::models::fox_settings::id::FoxSettings;

verus! {

/// A trait defining the specification for a FoxESS setting.
///
/// Types implementing this trait define how to parse a raw string value from the API
/// into a specific Rust type.
pub trait SettingSpec {
    /// The Rust type that the setting value will be parsed into.
    type Value;

    /// The `FoxSettings` variant associated with this specification.
    const SETTING: FoxSettings;

    /// Whether `r` is what parsing the raw value `raw` gives. A specification
    /// that states nothing of its parse keeps this default, which admits any result.
    open spec fn parsed(raw: Seq<char>, r: Result<Self::Value, FoxError>) -> bool {
        true
    }

    /// Parses the raw string value into the associated `Value` type.
    fn parse(raw: String) -> (r: Result<Self::Value, FoxError>)
        ensures
            Self::parsed(raw@, r),
    ;
}

/// A trait for settings that can be updated on the FoxESS cloud.
///
/// Types implementing this trait provide a way to format a value back into a string
/// for API requests.
pub trait SettableSettingSpec: SettingSpec {
    /// The text that a value is sent as.
    spec fn formatted(value: Self::Value) -> Seq<char>;

    /// Formats the value into a string suitable for an API request.
    fn format(value: &Self::Value) -> (r: String)
        ensures
            r@ == Self::formatted(*value),
    ;
}

} // verus!
