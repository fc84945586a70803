use std::str::FromStr;

use chrono::{TimeZone, Utc};

use foxess::client::helper::FoxHelper;
use foxess::fox_settings::{MaxSoc, MinSocOnGrid, SettableSettingSpec, SettingSpec, WorkMode};
use foxess::models::dto::{
    Data, DataSet, DeviceHistoryData, DeviceHistoryResult, DeviceRealTimeResult, DeviceSettingsResult,
    DeviceVariableInfo, DeviceVariablesResult, RealTimeData, RealTimeVariables, SettingsData as SettingsValue,
};
use foxess::text::IntParseError;
use foxess::{FoxError, FoxSettings, FoxVariables, FoxWorkModes, SettingsData, SettingsDataPoint, VariablesData};

fn fox_helper() -> FoxHelper {
    FoxHelper::new("TEST_API_KEY", "TEST_SN", "http://127.0.0.1:1234")
}

#[test]
fn variable_keys_round_trip() {
    for v in [FoxVariables::PvPower, FoxVariables::LoadsPower, FoxVariables::SoC, FoxVariables::SOH,
              FoxVariables::BatTemperature, FoxVariables::RunningState, FoxVariables::Pv10Current,
              FoxVariables::PowerFactor, FoxVariables::TodayYield, FoxVariables::AmbientTemperation] {
        assert_eq!(FoxVariables::from_key(v.as_str()), Some(v));
        assert_eq!(FoxVariables::from_str(v.as_str()), Ok(v));
    }
    assert_eq!(FoxVariables::PvPower.as_str(), "pvPower");
    assert_eq!(FoxVariables::SOH.as_str(), "SOH");
    assert_eq!(FoxVariables::from_key("pvpower"), None);
    assert_eq!(FoxVariables::from_str("nope"), Err(()));
}

#[test]
fn setting_keys_round_trip() {
    for s in [FoxSettings::ActivePowerLimit, FoxSettings::ExportLimit, FoxSettings::MaxSoc,
              FoxSettings::MinSocOnGrid, FoxSettings::WorkMode, FoxSettings::MaxSetChargeCurrent] {
        assert_eq!(FoxSettings::from_key(s.as_str()), Some(s));
    }
    assert_eq!(FoxSettings::MinSocOnGrid.as_str(), "MinSocOnGrid");
    assert_eq!(FoxSettings::from_str("MinSOC"), Err(()));
}

#[test]
fn work_mode_names_parse_strictly() {
    for m in [FoxWorkModes::ForceDischarge, FoxWorkModes::PeakShaving, FoxWorkModes::Feedin, FoxWorkModes::Backup,
              FoxWorkModes::SelfUse, FoxWorkModes::ForceCharge, FoxWorkModes::Unknown] {
        assert_eq!(FoxWorkModes::from_name(m.as_str()), m);
        assert_eq!(FoxWorkModes::from_str(m.as_str()), Ok(m));
        assert_eq!(WorkMode::parse(WorkMode::format(&m)).ok(), Some(m));
    }
    // Names the registry does not hold read as Unknown where the API sends
    // them, and are refused where a caller parses one.
    assert_eq!(FoxWorkModes::from_name("Invented"), FoxWorkModes::Unknown);
    assert_eq!(FoxWorkModes::from_str(""), Err(()));
    assert_eq!(FoxWorkModes::from_str("foo"), Err(()));
    assert_eq!(FoxWorkModes::from_str("selfuse"), Err(()));
}

#[test]
fn async_get_settings() {
    let raw = fox_helper().post_get_setting(DeviceSettingsResult { result: SettingsValue { value: "12.34".to_string() } });
    let mut data = SettingsData::new();
    data.insert(FoxSettings::MaxSetChargeCurrent, SettingsDataPoint(raw));
    assert_eq!(data.get(FoxSettings::MaxSetChargeCurrent), Some("12.34".to_string()));
    assert_eq!(data.get(FoxSettings::MaxSoc), None);
}

#[test]
fn settings_percentages_are_parsed_and_clamped() {
    let mut data = SettingsData::new();
    data.insert(FoxSettings::MinSocOnGrid, SettingsDataPoint("10".to_string()));
    data.insert(FoxSettings::MaxSoc, SettingsDataPoint("120".to_string()));
    data.insert(FoxSettings::WorkMode, SettingsDataPoint("SelfUse".to_string()));
    assert_eq!(data.get_u8_percent(FoxSettings::MinSocOnGrid), Ok(Some(10)));
    assert_eq!(data.get_u8_percent(FoxSettings::MaxSoc), Ok(Some(100)));
    assert_eq!(data.get_u8_percent(FoxSettings::WorkMode), Err(IntParseError::InvalidDigit));
    assert_eq!(data.get_u8_percent(FoxSettings::ExportLimit), Ok(None));
    // A later write replaces the value.
    data.insert(FoxSettings::MinSocOnGrid, SettingsDataPoint("15".to_string()));
    assert_eq!(data.get(FoxSettings::MinSocOnGrid), Some("15".to_string()));
    assert_eq!(data.get(FoxSettings::MaxSoc), Some("120".to_string()));
}

#[test]
fn async_get_setting_typed() {
    assert_eq!(MinSocOnGrid::parse("55".to_string()).ok(), Some(55));
    assert_eq!(MaxSoc::parse("250".to_string()).ok(), Some(100));
    match MinSocOnGrid::parse("abc".to_string()) {
        Err(FoxError::SettingParseError { setting, value, error }) => {
            assert_eq!(setting, "MinSocOnGrid");
            assert_eq!(value, "abc");
            assert_eq!(error, "invalid digit found in string");
        }
        _ => panic!("expected a setting parse error"),
    }
    assert_eq!(WorkMode::parse("ForceCharge".to_string()).ok(), Some(FoxWorkModes::ForceCharge));
    match WorkMode::parse("Whatever".to_string()) {
        Err(FoxError::SettingParseError { setting, value, error }) => {
            assert_eq!(setting, "WorkMode");
            assert_eq!(value, "Whatever");
            assert_eq!(error, "");
        }
        _ => panic!("expected a setting parse error"),
    }
    assert_eq!(<MinSocOnGrid as SettingSpec>::SETTING, FoxSettings::MinSocOnGrid);
    assert_eq!(<WorkMode as SettingSpec>::SETTING, FoxSettings::WorkMode);
}

#[test]
fn soc_limits_are_formatted_within_10_to_100() {
    assert_eq!(MinSocOnGrid::format(&0), "10");
    assert_eq!(MinSocOnGrid::format(&55), "55");
    assert_eq!(MaxSoc::format(&255), "100");
    for v in [0u8, 9, 10, 55, 100, 101, 255] {
        let expected = v.clamp(10, 100);
        assert_eq!(MinSocOnGrid::parse(MinSocOnGrid::format(&v)).ok(), Some(expected));
    }
    assert_eq!(WorkMode::format(&FoxWorkModes::Backup), "Backup");
}

fn realtime(entries: &[(&str, f64)]) -> DeviceRealTimeResult<f64> {
    DeviceRealTimeResult {
        result: vec![RealTimeVariables {
            datas: entries.iter().map(|(k, v)| RealTimeData { variable: k.to_string(), value: *v }).collect(),
        }],
    }
}

#[test]
fn async_get_variables_parses_scientific_notation() {
    let res = fox_helper().post_get_variables(&realtime(&[("SoC", 99.0), ("pvPower", 123.0)]));
    assert_eq!(res.get(FoxVariables::SoC), Some(99.0));
    assert_eq!(res.get(FoxVariables::PvPower), Some(123.0));
    assert_eq!(res.get(FoxVariables::LoadsPower), None);
}

#[test]
fn realtime_values_skip_unknown_variables_and_keep_the_last() {
    let res = fox_helper().post_get_variables(&realtime(&[("bogus", 1.0), ("SoC", 50.0), ("SoC", 60.0)]));
    assert_eq!(res.get(FoxVariables::SoC), Some(60.0));
    let empty: DeviceRealTimeResult<f64> = DeviceRealTimeResult { result: vec![] };
    assert_eq!(fox_helper().post_get_variables(&empty).get(FoxVariables::SoC), None);
    let mut data: VariablesData<f64> = VariablesData::new();
    data.insert(FoxVariables::PvPower, 1.5);
    data.insert(FoxVariables::PvPower, 2.5);
    assert_eq!(data.get(FoxVariables::PvPower), Some(2.5));
}

fn history(entries: Vec<Vec<(&str, Vec<(&str, f64)>)>>) -> DeviceHistoryResult<f64> {
    DeviceHistoryResult {
        result: entries
            .into_iter()
            .map(|sets| DeviceHistoryData {
                data_set: sets
                    .into_iter()
                    .map(|(variable, points)| DataSet {
                        variable: variable.to_string(),
                        data: points.into_iter().map(|(t, v)| Data { time: t.to_string(), value: v }).collect(),
                    })
                    .collect(),
            })
            .collect(),
    }
}

#[test]
fn async_get_variables_history() {
    let data = history(vec![vec![(
        "pvPower",
        vec![("2025-12-03 00:08:51 CET+0100", 42.0), ("2025-12-03 00:09:51 CET+0100", 43.0)],
    )]]);
    let res = fox_helper().post_get_variables_history(&data).ok().unwrap();
    let series = res.get(FoxVariables::PvPower).unwrap();
    assert_eq!(series.len(), 2);
    assert_eq!(series[0].data, 42.0);
    assert_eq!(series[0].date_time, Utc.with_ymd_and_hms(2025, 12, 2, 23, 8, 51).unwrap().timestamp_millis());
    assert_eq!(series[1].data, 43.0);
    assert_eq!(series[1].date_time, Utc.with_ymd_and_hms(2025, 12, 2, 23, 9, 51).unwrap().timestamp_millis());
}

#[test]
fn async_get_history_transforms_first_datapoint_only() {
    let data = history(vec![
        vec![
            ("pvPower", vec![("2025-12-03 00:08:51 CET+0100", 42.0)]),
            ("unknownVariable", vec![("garbage", 1.0)]),
            ("SoC", vec![]),
            ("pvPower", vec![("2025-12-03 00:09:51 CET+0100", 43.0)]),
        ],
        vec![("loadsPower", vec![("2025-12-03 00:08:51 CET+0100", 7.0)])],
    ]);
    let res = fox_helper().post_get_variables_history(&data).ok().unwrap();
    let series = res.get(FoxVariables::PvPower).unwrap();
    assert_eq!(series.len(), 2);
    assert_eq!(series[0].data, 42.0);
    assert_eq!(series[1].data, 43.0);
    assert!(res.get(FoxVariables::SoC).is_none());
    assert!(res.get(FoxVariables::LoadsPower).is_none());
}

#[test]
fn history_with_an_unreadable_timestamp_fails() {
    let data = history(vec![vec![("pvPower", vec![("2025-12-03 00:08:51 CET+0100", 42.0), ("yesterday", 1.0)])]]);
    match fox_helper().post_get_variables_history(&data) {
        Err(FoxError::ChronoParseError(m)) => assert!(!m.is_empty()),
        _ => panic!("expected a parse error"),
    }
    let empty = history(vec![]);
    assert!(fox_helper().post_get_variables_history(&empty).ok().unwrap().get(FoxVariables::PvPower).is_none());
}

fn info(unit: Option<&str>, names: &[(&str, &str)], enumeration: Option<&[(&str, &str)]>) -> DeviceVariableInfo {
    let pairs = |p: &[(&str, &str)]| p.iter().map(|(a, b)| (a.to_string(), b.to_string())).collect::<Vec<_>>();
    DeviceVariableInfo { unit: unit.map(|u| u.to_string()), name: pairs(names), enumeration: enumeration.map(pairs) }
}

#[test]
fn async_get_available_variables() {
    let data = DeviceVariablesResult {
        result: vec![
            vec![("pvPower".to_string(), info(Some("kW"), &[("de", "PV Leistung"), ("en", "PVPower")], None))],
            vec![("SoC".to_string(), info(Some("%"), &[("en", "SoC")], None))],
            vec![],
            vec![(
                "runningState".to_string(),
                info(None, &[("en", "Running State")], Some(&[("163", "on-grid"), ("164", "off-grid")])),
            )],
            vec![("noEnglish".to_string(), info(None, &[("de", "Nur Deutsch")], None))],
        ],
    };
    let res = fox_helper().post_get_available_variables(data);
    assert_eq!(res.variables.len(), 4);
    assert!(res
        .variables
        .iter()
        .filter_map(|v| v.enumeration.as_ref())
        .any(|e| e.iter().any(|(k, _)| k == "163")));
    assert_eq!(res.variables[0].variable, "pvPower");
    assert_eq!(res.variables[0].name, "PVPower");
    assert_eq!(res.variables[0].unit.as_deref(), Some("kW"));
    assert_eq!(res.variables[2].name, "Running State");
    assert_eq!(res.variables[3].name, "noEnglish");
}
