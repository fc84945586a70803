//! Builtin marker types used together with typed reads and writes of a
//! setting; each implements [`SettingSpec`] for one builtin setting.

use vstd::prelude::*;
use crate::error::FoxError;
use crate::models::fox_settings::id::FoxSettings;
use crate::models::fox_settings::specification::{SettableSettingSpec, SettingSpec};
use crate::models::fox_scheduler::id::FoxWorkModes;
use crate::models::settings::{parse_percent_setting, percent_setting_spec};
use crate::text::{decimal, u64_to_decimal, lemma_parse_decimal_u8};

verus! {

/// What parsing the value of a percentage setting named `key` gives: the
/// clamped number, or a [`FoxError::SettingParseError`] that names the
/// setting, the raw value and the reason.
pub open spec fn percent_parsed(key: Seq<char>, raw: Seq<char>, r: Result<u8, FoxError>) -> bool {
    match (percent_setting_spec(raw), r) {
        (Ok(v), Ok(w)) => v == w,
        (Err(e), Err(FoxError::SettingParseError { setting, value, error })) =>
            setting@ == key && value@ == raw && error@ == e.message_spec(),
        _ => false,
    }
}

/// The text that a state-of-charge limit is sent as: the value held to
/// 10..=100, in decimal.
pub open spec fn soc_limit_text(value: u8) -> Seq<char> {
    decimal((if value < 10 { 10u8 } else if value > 100 { 100u8 } else { value }) as nat)
}

fn parse_percent(setting: FoxSettings, raw: String) -> (r: Result<u8, FoxError>)
    ensures
        percent_parsed(setting.key(), raw@, r),
{
    match parse_percent_setting(raw.as_str()) {
        Ok(v) => Ok(v),
        Err(e) => Err(FoxError::SettingParseError {
            setting: setting.as_str(),
            value: raw,
            error: e.message(),
        }),
    }
}

fn format_soc_limit(value: u8) -> (r: String)
    ensures
        r@ == soc_limit_text(value),
{
    let v: u8 = if value < 10 { 10 } else if value > 100 { 100 } else { value };
    u64_to_decimal(v as u64)
}

/// Specification for the `MinSocOnGrid` setting.
pub struct MinSocOnGrid;

impl SettingSpec for MinSocOnGrid {
    type Value = u8;

    const SETTING: FoxSettings = FoxSettings::MinSocOnGrid;

    open spec fn parsed(raw: Seq<char>, r: Result<u8, FoxError>) -> bool {
        percent_parsed(FoxSettings::MinSocOnGrid.key(), raw, r)
    }

    fn parse(raw: String) -> (r: Result<u8, FoxError>) {
        parse_percent(FoxSettings::MinSocOnGrid, raw)
    }
}

impl SettableSettingSpec for MinSocOnGrid {
    open spec fn formatted(value: u8) -> Seq<char> {
        soc_limit_text(value)
    }

    fn format(value: &u8) -> (r: String) {
        format_soc_limit(*value)
    }
}

/// Specification for the `MaxSoc` setting.
pub struct MaxSoc;

impl SettingSpec for MaxSoc {
    type Value = u8;

    const SETTING: FoxSettings = FoxSettings::MaxSoc;

    open spec fn parsed(raw: Seq<char>, r: Result<u8, FoxError>) -> bool {
        percent_parsed(FoxSettings::MaxSoc.key(), raw, r)
    }

    fn parse(raw: String) -> (r: Result<u8, FoxError>) {
        parse_percent(FoxSettings::MaxSoc, raw)
    }
}

impl SettableSettingSpec for MaxSoc {
    open spec fn formatted(value: u8) -> Seq<char> {
        soc_limit_text(value)
    }

    fn format(value: &u8) -> (r: String) {
        format_soc_limit(*value)
    }
}

/// Specification for the `WorkMode` setting.
pub struct WorkMode;

impl SettingSpec for WorkMode {
    type Value = FoxWorkModes;

    const SETTING: FoxSettings = FoxSettings::WorkMode;

    open spec fn parsed(raw: Seq<char>, r: Result<FoxWorkModes, FoxError>) -> bool {
        match FoxWorkModes::from_key_spec(raw) {
            Some(m) => r == Ok::<FoxWorkModes, FoxError>(m),
            None => r matches Err(FoxError::SettingParseError { setting, value, error })
                && setting@ == FoxSettings::WorkMode.key() && value@ == raw && error@.len() == 0,
        }
    }

    fn parse(raw: String) -> (r: Result<FoxWorkModes, FoxError>) {
        match FoxWorkModes::from_key(raw.as_str()) {
            Some(m) => Ok(m),
            None => Err(FoxError::SettingParseError {
                setting: FoxSettings::WorkMode.as_str(),
                value: raw,
                error: String::new(),
            }),
        }
    }
}

impl SettableSettingSpec for WorkMode {
    open spec fn formatted(value: FoxWorkModes) -> Seq<char> {
        value.key()
    }

    fn format(value: &FoxWorkModes) -> (r: String) {
        value.as_str().to_owned()
    }
}

/// A state-of-charge limit that is sent for a setting reads back as the
/// value held to 10..=100.
pub proof fn lemma_soc_limit_round_trip(key: Seq<char>, value: u8)
    ensures
        percent_parsed(key, soc_limit_text(value),
            Ok(if value < 10 { 10u8 } else if value > 100 { 100u8 } else { value })),
{
    let v: u8 = if value < 10 { 10u8 } else if value > 100 { 100u8 } else { value };
    lemma_parse_decimal_u8(v);
}

/// A work mode that is sent for the `WorkMode` setting reads back as that
/// mode.
pub proof fn lemma_work_mode_round_trip(mode: FoxWorkModes)
    ensures
        <WorkMode as SettingSpec>::parsed(<WorkMode as SettableSettingSpec>::formatted(mode), Ok(mode)),
{
    FoxWorkModes::lemma_from_key_of_key(mode);
}

/// The builtin specifications read and write the settings they are named
/// after.
pub proof fn lemma_builtin_settings()
    ensures
        <MinSocOnGrid as SettingSpec>::SETTING == FoxSettings::MinSocOnGrid,
        <MaxSoc as SettingSpec>::SETTING == FoxSettings::MaxSoc,
        <WorkMode as SettingSpec>::SETTING == FoxSettings::WorkMode,
{
}

} // verus!
