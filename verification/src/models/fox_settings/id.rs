//! The [FoxSettings] enumeration: the settings that FoxESS Cloud offers, each with
//! the key by which the cloud names it.

use vstd::prelude::*;
use crate::text::str_eq;

verus! {

/// An enumeration representing implemented settings from FoxESS cloud, i.e., a subset from available settings.
///
/// These settings can be retrieved or set on FoxESS devices.
#[derive(Debug, Clone, Copy, PartialEq, Eq, Hash, Structural)]
#[non_exhaustive]
pub enum FoxSettings {
    /// The limit on the inverter's active power output
    ActivePowerLimit,
    /// Enables or configures energy-saving mode, typically optimizing battery charge/discharge based on time-of-use or self-consumption strategy
    ECOMode,
    /// Controls whether the EPS (Emergency Power Supply) backup output is enabled during grid outages
    EpsOutPut,
    /// Enables or disables the inverter's grid export power limiting function
    ExportLimit,
    /// Defines the maximum allowed power (in watts or percent) that can be exported to the grid
    ExportLimitPower,
    /// Selects the country- or utility-specific grid compliance standard the inverter must follow
    GridCode,
    /// Enables ground fault detection and protection functionality
    GroundProtection,
    /// The maximum allowed battery charging current set for the inverter
    MaxSetChargeCurrent,
    /// The maximum allowed battery discharging current set for the inverter
    MaxSetDischargeCurrent,
    /// The maximum battery state of charge (SOC) the system will charge up to
    MaxSoc,
    /// Enables communication with and use of the primary external energy meter
    Meter1Enable,
    /// Enables communication with and use of a secondary external energy meter
    Meter2Enable,
    /// The minimum battery state of charge (SOC) allowed during normal operation
    MinSoc,
    /// The minimum battery state of charge (SOC) maintained while the grid is available
    MinSocOnGrid,
    /// Master system enable/disable switch for inverter operation
    SysSwitch,
    /// Defines the inverter's operating mode (e.g., self-consumption, feed-in priority, backup, or time-of-use mode)
    WorkMode,
}

impl FoxSettings {
    /// The key by which FoxESS Cloud names this variant.
    pub open spec fn key(self) -> Seq<char> {
        match self {
            FoxSettings::ActivePowerLimit => "ActivePowerLimit"@,
            FoxSettings::ECOMode => "ECOMode"@,
            FoxSettings::EpsOutPut => "EpsOutPut"@,
            FoxSettings::ExportLimit => "ExportLimit"@,
            FoxSettings::ExportLimitPower => "ExportLimitPower"@,
            FoxSettings::GridCode => "GridCode"@,
            FoxSettings::GroundProtection => "GroundProtection"@,
            FoxSettings::MaxSetChargeCurrent => "MaxSetChargeCurrent"@,
            FoxSettings::MaxSetDischargeCurrent => "MaxSetDischargeCurrent"@,
            FoxSettings::MaxSoc => "MaxSoc"@,
            FoxSettings::Meter1Enable => "Meter1Enable"@,
            FoxSettings::Meter2Enable => "Meter2Enable"@,
            FoxSettings::MinSoc => "MinSoc"@,
            FoxSettings::MinSocOnGrid => "MinSocOnGrid"@,
            FoxSettings::SysSwitch => "SysSwitch"@,
            FoxSettings::WorkMode => "WorkMode"@,
        }
    }

    /// Returns the key by which FoxESS Cloud names this variant.
    pub fn as_str(&self) -> (r: &'static str)
        ensures
            r@ == self.key(),
    {
        match self {
            FoxSettings::ActivePowerLimit => "ActivePowerLimit",
            FoxSettings::ECOMode => "ECOMode",
            FoxSettings::EpsOutPut => "EpsOutPut",
            FoxSettings::ExportLimit => "ExportLimit",
            FoxSettings::ExportLimitPower => "ExportLimitPower",
            FoxSettings::GridCode => "GridCode",
            FoxSettings::GroundProtection => "GroundProtection",
            FoxSettings::MaxSetChargeCurrent => "MaxSetChargeCurrent",
            FoxSettings::MaxSetDischargeCurrent => "MaxSetDischargeCurrent",
            FoxSettings::MaxSoc => "MaxSoc",
            FoxSettings::Meter1Enable => "Meter1Enable",
            FoxSettings::Meter2Enable => "Meter2Enable",
            FoxSettings::MinSoc => "MinSoc",
            FoxSettings::MinSocOnGrid => "MinSocOnGrid",
            FoxSettings::SysSwitch => "SysSwitch",
            FoxSettings::WorkMode => "WorkMode",
        }
    }

    /// The position of this variant in the registry.
    pub closed spec fn index(self) -> int {
        match self {
            FoxSettings::ActivePowerLimit => 0,
            FoxSettings::ECOMode => 1,
            FoxSettings::EpsOutPut => 2,
            FoxSettings::ExportLimit => 3,
            FoxSettings::ExportLimitPower => 4,
            FoxSettings::GridCode => 5,
            FoxSettings::GroundProtection => 6,
            FoxSettings::MaxSetChargeCurrent => 7,
            FoxSettings::MaxSetDischargeCurrent => 8,
            FoxSettings::MaxSoc => 9,
            FoxSettings::Meter1Enable => 10,
            FoxSettings::Meter2Enable => 11,
            FoxSettings::MinSoc => 12,
            FoxSettings::MinSocOnGrid => 13,
            FoxSettings::SysSwitch => 14,
            FoxSettings::WorkMode => 15,
        }
    }

    /// The variant at a position of the registry.
    closed spec fn of_index(i: int) -> FoxSettings {
        if i == 0 { FoxSettings::ActivePowerLimit }
        else if i == 1 { FoxSettings::ECOMode }
        else if i == 2 { FoxSettings::EpsOutPut }
        else if i == 3 { FoxSettings::ExportLimit }
        else if i == 4 { FoxSettings::ExportLimitPower }
        else if i == 5 { FoxSettings::GridCode }
        else if i == 6 { FoxSettings::GroundProtection }
        else if i == 7 { FoxSettings::MaxSetChargeCurrent }
        else if i == 8 { FoxSettings::MaxSetDischargeCurrent }
        else if i == 9 { FoxSettings::MaxSoc }
        else if i == 10 { FoxSettings::Meter1Enable }
        else if i == 11 { FoxSettings::Meter2Enable }
        else if i == 12 { FoxSettings::MinSoc }
        else if i == 13 { FoxSettings::MinSocOnGrid }
        else if i == 14 { FoxSettings::SysSwitch }
        else { FoxSettings::WorkMode }
    }

    /// The position of the key `s` in the registry, read from its length and a few of its characters.
    closed spec fn key_index(s: Seq<char>) -> int {
        if s.len() == 16 && s[0] == 'A' { 0 }
        else if s.len() == 7 { 1 }
        else if s.len() == 9 && s[0] == 'E' { 2 }
        else if s.len() == 11 { 3 }
        else if s.len() == 16 && s[0] == 'E' { 4 }
        else if s.len() == 8 && s[0] == 'G' { 5 }
        else if s.len() == 16 && s[0] == 'G' { 6 }
        else if s.len() == 19 { 7 }
        else if s.len() == 22 { 8 }
        else if s.len() == 6 && s[1] == 'a' { 9 }
        else if s.len() == 12 && s[5] == '1' { 10 }
        else if s.len() == 12 && s[5] == '2' { 11 }
        else if s.len() == 6 && s[1] == 'i' { 12 }
        else if s.len() == 12 && s[5] == 'c' { 13 }
        else if s.len() == 9 && s[0] == 'S' { 14 }
        else if s.len() == 8 && s[0] == 'W' { 15 }
        else { -1 }
    }

    proof fn lemma_of_index(self)
        ensures
            Self::of_index(self.index()) == self,
    {
    }

    proof fn lemma_key_index(self)
        ensures
            Self::key_index(self.key()) == self.index(),
    {
        match self {
            FoxSettings::ActivePowerLimit => {
                reveal_strlit("ActivePowerLimit");
            },
            FoxSettings::ECOMode => {
                reveal_strlit("ECOMode");
            },
            FoxSettings::EpsOutPut => {
                reveal_strlit("EpsOutPut");
            },
            FoxSettings::ExportLimit => {
                reveal_strlit("ExportLimit");
            },
            FoxSettings::ExportLimitPower => {
                reveal_strlit("ExportLimitPower");
            },
            FoxSettings::GridCode => {
                reveal_strlit("GridCode");
            },
            FoxSettings::GroundProtection => {
                reveal_strlit("GroundProtection");
            },
            FoxSettings::MaxSetChargeCurrent => {
                reveal_strlit("MaxSetChargeCurrent");
            },
            FoxSettings::MaxSetDischargeCurrent => {
                reveal_strlit("MaxSetDischargeCurrent");
            },
            FoxSettings::MaxSoc => {
                reveal_strlit("MaxSoc");
            },
            FoxSettings::Meter1Enable => {
                reveal_strlit("Meter1Enable");
            },
            FoxSettings::Meter2Enable => {
                reveal_strlit("Meter2Enable");
            },
            FoxSettings::MinSoc => {
                reveal_strlit("MinSoc");
            },
            FoxSettings::MinSocOnGrid => {
                reveal_strlit("MinSocOnGrid");
            },
            FoxSettings::SysSwitch => {
                reveal_strlit("SysSwitch");
            },
            FoxSettings::WorkMode => {
                reveal_strlit("WorkMode");
            },
        }
    }

    /// Distinct variants have distinct keys.
    pub proof fn lemma_key_injective(a: FoxSettings, b: FoxSettings)
        requires
            a.key() == b.key(),
        ensures
            a == b,
    {
        a.lemma_key_index();
        b.lemma_key_index();
        a.lemma_of_index();
        b.lemma_of_index();
    }

    /// The variant whose key is `s`, if there is one.
    pub open spec fn from_key_spec(s: Seq<char>) -> Option<FoxSettings> {
        if exists|v: FoxSettings| v.key() == s {
            Some(choose|v: FoxSettings| v.key() == s)
        } else {
            None
        }
    }

    /// The variant that the key of a variant names is that variant.
    pub proof fn lemma_from_key_of_key(v: FoxSettings)
        ensures
            Self::from_key_spec(v.key()) == Some(v),
    {
        let w = choose|w: FoxSettings| w.key() == v.key();
        Self::lemma_key_injective(v, w);
    }

    /// Returns the variant whose key is `s`, if there is one.
    pub fn from_key(s: &str) -> (r: Option<FoxSettings>)
        ensures
            r == Self::from_key_spec(s@),
    {
        if str_eq(s, "ActivePowerLimit") {
            proof { Self::lemma_from_key_of_key(FoxSettings::ActivePowerLimit); }
            return Some(FoxSettings::ActivePowerLimit);
        }
        if str_eq(s, "ECOMode") {
            proof { Self::lemma_from_key_of_key(FoxSettings::ECOMode); }
            return Some(FoxSettings::ECOMode);
        }
        if str_eq(s, "EpsOutPut") {
            proof { Self::lemma_from_key_of_key(FoxSettings::EpsOutPut); }
            return Some(FoxSettings::EpsOutPut);
        }
        if str_eq(s, "ExportLimit") {
            proof { Self::lemma_from_key_of_key(FoxSettings::ExportLimit); }
            return Some(FoxSettings::ExportLimit);
        }
        if str_eq(s, "ExportLimitPower") {
            proof { Self::lemma_from_key_of_key(FoxSettings::ExportLimitPower); }
            return Some(FoxSettings::ExportLimitPower);
        }
        if str_eq(s, "GridCode") {
            proof { Self::lemma_from_key_of_key(FoxSettings::GridCode); }
            return Some(FoxSettings::GridCode);
        }
        if str_eq(s, "GroundProtection") {
            proof { Self::lemma_from_key_of_key(FoxSettings::GroundProtection); }
            return Some(FoxSettings::GroundProtection);
        }
        if str_eq(s, "MaxSetChargeCurrent") {
            proof { Self::lemma_from_key_of_key(FoxSettings::MaxSetChargeCurrent); }
            return Some(FoxSettings::MaxSetChargeCurrent);
        }
        if str_eq(s, "MaxSetDischargeCurrent") {
            proof { Self::lemma_from_key_of_key(FoxSettings::MaxSetDischargeCurrent); }
            return Some(FoxSettings::MaxSetDischargeCurrent);
        }
        if str_eq(s, "MaxSoc") {
            proof { Self::lemma_from_key_of_key(FoxSettings::MaxSoc); }
            return Some(FoxSettings::MaxSoc);
        }
        if str_eq(s, "Meter1Enable") {
            proof { Self::lemma_from_key_of_key(FoxSettings::Meter1Enable); }
            return Some(FoxSettings::Meter1Enable);
        }
        if str_eq(s, "Meter2Enable") {
            proof { Self::lemma_from_key_of_key(FoxSettings::Meter2Enable); }
            return Some(FoxSettings::Meter2Enable);
        }
        if str_eq(s, "MinSoc") {
            proof { Self::lemma_from_key_of_key(FoxSettings::MinSoc); }
            return Some(FoxSettings::MinSoc);
        }
        if str_eq(s, "MinSocOnGrid") {
            proof { Self::lemma_from_key_of_key(FoxSettings::MinSocOnGrid); }
            return Some(FoxSettings::MinSocOnGrid);
        }
        if str_eq(s, "SysSwitch") {
            proof { Self::lemma_from_key_of_key(FoxSettings::SysSwitch); }
            return Some(FoxSettings::SysSwitch);
        }
        if str_eq(s, "WorkMode") {
            proof { Self::lemma_from_key_of_key(FoxSettings::WorkMode); }
            return Some(FoxSettings::WorkMode);
        }
        None
    }
}

impl core::str::FromStr for FoxSettings {
    type Err = ();

    /// Parses the key by which FoxESS Cloud names a variant.
    fn from_str(s: &str) -> (r: Result<Self, Self::Err>)
        ensures
            r == (match FoxSettings::from_key_spec(s@) {
                Some(v) => Ok::<FoxSettings, ()>(v),
                None => Err::<FoxSettings, ()>(()),
            }),
    {
        match FoxSettings::from_key(s) {
            Some(v) => Ok(v),
            None => Err(()),
        }
    }
}

} // verus!
