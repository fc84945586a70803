use chrono::{Local, TimeZone, Utc};
use md5::{Digest, Md5};

use foxess::client::helper::FoxHelper;
use foxess::client::responses::check_response;
use foxess::client::schedule::build_charge_time_schedule;
use foxess::client::signing::{generate_headers, md5_digest, sign};
use foxess::client::time::{cet_to_utc, local_time_of_day, parse_datetime_millis, window_end_instant};
use foxess::fox_settings::{MaxSoc, MinSocOnGrid};
use foxess::models::dto::{ChargingTimeSchedule, FoxResponse};
use foxess::{FoxError, FoxSettings, FoxVariables};

const API_KEY: &str = "TEST_API_KEY";
const SN: &str = "TEST_SN";
const TS: i64 = 1_700_000_000_000;

fn expected_signature(path: &str, api_key: &str, timestamp_millis: i64) -> String {
    // The literal "\r\n" sequences: a backslash, r, a backslash, n.
    let signature = format!("{}\\r\\n{}\\r\\n{}", path, api_key, timestamp_millis);
    let mut hasher = Md5::new();
    hasher.update(signature.as_bytes());
    hasher.finalize().iter().map(|x| format!("{:02x}", x)).collect()
}

fn helper() -> FoxHelper {
    FoxHelper::new(API_KEY, SN, "http://127.0.0.1:1234")
}

fn fields(s: &ChargingTimeSchedule) -> (bool, u8, u8, u8, u8, bool, u8, u8, u8, u8) {
    (
        s.enable_1, s.start_time_1.hour, s.start_time_1.minute, s.end_time_1.hour, s.end_time_1.minute,
        s.enable_2, s.start_time_2.hour, s.start_time_2.minute, s.end_time_2.hour, s.end_time_2.minute,
    )
}

fn schedule_error(r: Result<ChargingTimeSchedule, FoxError>) -> String {
    match r {
        Err(FoxError::ScheduleBuildError(m)) => m,
        Err(e) => panic!("unexpected error {}", e.message()),
        Ok(_) => panic!("expected an error"),
    }
}

#[test]
fn md5_digest_matches_the_md5_crate() {
    let d = md5_digest("abc");
    assert_eq!(d.len(), 16);
    assert_eq!(foxess::text::to_hex_lower(&d), "900150983cd24fb0d6963f7d28e17f72");
}

#[test]
fn signature_matches_the_documented_scheme() {
    let path = "/op/v0/device/setting/get";
    assert_eq!(sign(path, API_KEY, TS), expected_signature(path, API_KEY, TS));
    assert_ne!(sign(path, API_KEY, TS), sign(path, API_KEY, TS + 1));
}

#[test]
fn headers_carry_token_timestamp_signature_and_language() {
    let path = "/op/v0/device/setting/get";
    let h = generate_headers(API_KEY, path, TS, Some(vec![("Content-Type", "application/json")]));
    let expected = vec![
        ("token".to_string(), API_KEY.to_string()),
        ("timestamp".to_string(), "1700000000000".to_string()),
        ("signature".to_string(), expected_signature(path, API_KEY, TS)),
        ("lang".to_string(), "en".to_string()),
        ("Content-Type".to_string(), "application/json".to_string()),
    ];
    assert_eq!(h, expected);
    assert_eq!(generate_headers(API_KEY, path, TS, None).len(), 4);
}

#[test]
fn network_requests_join_base_url_and_path() {
    let fox = helper();
    let (url, headers) = fox.pre_network_post_request("/op/v0/device/setting/get", TS);
    assert_eq!(url, "http://127.0.0.1:1234/op/v0/device/setting/get");
    assert_eq!(headers[2].1, expected_signature("/op/v0/device/setting/get", API_KEY, TS));
    assert_eq!(headers[4], ("Content-Type".to_string(), "application/json".to_string()));
    let (url, _) = fox.pre_network_get_request("/op/v0/device/variable/get", TS);
    assert_eq!(url, "http://127.0.0.1:1234/op/v0/device/variable/get");
}

fn envelope(errno: u32, msg: &str) -> Result<FoxResponse, String> {
    Ok(FoxResponse { errno, msg: msg.to_string() })
}

#[test]
fn successful_response_gives_its_body() {
    let body = r#"{"errno":0,"msg":"Operation successful","result":{"value":"12.34"}}"#.to_string();
    let r = check_response(200, envelope(0, "Operation successful"), body.clone());
    assert_eq!(r.ok(), Some(body));
}

#[test]
fn async_errno_nonzero_maps_to_error() {
    let body = r#"{"errno":40256,"msg":"The request header parameters are missing","result":null}"#.to_string();
    let err = check_response(200, envelope(40256, "The request header parameters are missing"), body).err().unwrap();
    let msg = err.message();
    assert!(msg.contains("40256"));
    assert!(msg.contains("The request header parameters are missing"));
    assert_eq!(err.errno(), Some(40256));
}

#[test]
fn blocking_errno_nonzero_maps_to_error() {
    let err = helper().post_network_post_request(200, envelope(401, "bad token"), "{}".to_string()).err().unwrap();
    let msg = err.message();
    assert!(msg.contains("errno"));
    assert!(msg.contains("bad token"));
}

#[test]
fn http_status_error_maps_to_error() {
    let err = check_response(500, Err("expected value at line 1 column 1".to_string()), "oops".to_string()).err().unwrap();
    assert!(err.message().contains("500"));
    assert_eq!(err.http_status(), Some(500));
    match err {
        FoxError::HttpStatus { status, body } => {
            assert_eq!(status, 500);
            assert_eq!(body, "oops");
        }
        other => panic!("unexpected {}", other.message()),
    }
}

#[test]
fn non_success_status_with_cloud_payload_reports_the_cloud_error() {
    let err = check_response(401, envelope(40256, "missing"), "{}".to_string()).err().unwrap();
    assert_eq!(err.errno(), Some(40256));
    assert_eq!(err.http_status(), None);
    let err = check_response(503, envelope(0, "ok"), "{\"errno\":0}".to_string()).err().unwrap();
    assert_eq!(err.http_status(), Some(503));
    assert!(err.is_transient());
}

#[test]
fn success_status_without_envelope_is_a_parse_error() {
    let err = check_response(200, Err("missing field `errno`".to_string()), "{}".to_string()).err().unwrap();
    assert_eq!(err.message(), "JsonParseError: missing field `errno`");
}

#[test]
fn long_error_bodies_are_truncated_to_512_characters() {
    let body = "é".repeat(700);
    match check_response(502, Err("not json".to_string()), body).err().unwrap() {
        FoxError::HttpStatus { body, .. } => assert_eq!(body.chars().count(), 512),
        other => panic!("unexpected {}", other.message()),
    }
}

#[test]
fn async_set_battery_charging_time_schedule() {
    let fox = helper();
    let start = Local.with_ymd_and_hms(2026, 2, 9, 3, 15, 0).unwrap().with_timezone(&Utc);
    let end = Local.with_ymd_and_hms(2026, 2, 9, 5, 30, 0).unwrap().with_timezone(&Utc);
    let (schedule, path) = fox
        .pre_set_battery_charging_time_schedule(true, start.timestamp_millis(), end.timestamp_millis())
        .ok()
        .unwrap();
    assert_eq!(path, "/op/v0/device/battery/forceChargeTime/set");
    assert_eq!(schedule.sn, SN);
    assert_eq!(fields(&schedule), (true, 3, 15, 5, 29, false, 0, 0, 0, 0));
}

#[test]
fn async_set_battery_charging_time_schedule_end_before_start() {
    let fox = helper();
    let start = Local.with_ymd_and_hms(2026, 2, 9, 5, 30, 0).unwrap().with_timezone(&Utc);
    let end = Local.with_ymd_and_hms(2026, 2, 9, 3, 15, 0).unwrap().with_timezone(&Utc);
    let err = fox
        .pre_set_battery_charging_time_schedule(true, start.timestamp_millis(), end.timestamp_millis())
        .err()
        .expect("set_battery_charging_time_schedule should fail");
    assert!(err.message().contains("charge schedule 1 start time is after end time"));
}

#[test]
fn disabled_charge_schedule_is_zeroed() {
    let (schedule, _) = helper().pre_set_battery_charging_time_schedule(false, 0, 0).ok().unwrap();
    assert_eq!(fields(&schedule), (false, 0, 0, 0, 0, false, 0, 0, 0, 0));
    let (schedule, _) = helper().pre_set_battery_charging_time_schedule(false, 123_456_789, 42).ok().unwrap();
    assert_eq!(fields(&schedule), (false, 0, 0, 0, 0, false, 0, 0, 0, 0));
}

#[test]
fn charge_schedule_validation_reports_each_inconsistency() {
    let b = |e1, sh1, sm1, eh1, em1, e2, sh2, sm2, eh2, em2| {
        build_charge_time_schedule(SN, e1, sh1, sm1, eh1, em1, e2, sh2, sm2, eh2, em2)
    };
    assert_eq!(schedule_error(b(true, 24, 0, 1, 0, false, 0, 0, 0, 0)), "charge schedule 1 start time error");
    assert_eq!(schedule_error(b(true, 1, 0, 1, 60, false, 0, 0, 0, 0)), "charge schedule 1 end time error");
    assert_eq!(schedule_error(b(true, 2, 0, 1, 0, false, 0, 0, 0, 0)), "charge schedule 1 start time is after end time");
    assert_eq!(schedule_error(b(false, 0, 0, 0, 0, true, 0, 99, 1, 0)), "charge schedule 2 start time error");
    assert_eq!(schedule_error(b(false, 0, 0, 0, 0, true, 0, 0, 25, 0)), "charge schedule 2 end time error");
    assert_eq!(schedule_error(b(false, 0, 0, 0, 0, true, 3, 0, 2, 59)), "charge schedule 2 start time is after end time");
    // An end of window 2 inside window 1 (inclusive ends).
    assert_eq!(schedule_error(b(true, 1, 0, 3, 0, true, 0, 0, 1, 0)), "overlapping charge schedules");
    // A start of window 2 inside window 1.
    assert_eq!(schedule_error(b(true, 1, 0, 3, 0, true, 3, 0, 4, 0)), "overlapping charge schedules");
    // A second window that encloses the first.
    assert_eq!(schedule_error(b(true, 3, 0, 5, 0, true, 1, 0, 8, 0)), "overlapping charge schedules");
    assert_eq!(schedule_error(b(true, 2, 0, 3, 0, true, 1, 0, 4, 0)), "overlapping charge schedules");
    // A second window inside the first.
    assert_eq!(schedule_error(b(true, 1, 0, 8, 0, true, 3, 0, 5, 0)), "overlapping charge schedules");
    // Invalid times are reported even for a disabled window.
    assert_eq!(schedule_error(b(false, 30, 0, 1, 0, false, 0, 0, 0, 0)), "charge schedule 1 start time error");
}

#[test]
fn charge_schedule_validation_corrects_minor_errors() {
    let ok = |r: Result<ChargingTimeSchedule, FoxError>| fields(&r.ok().unwrap());
    // Disabled windows are zeroed.
    assert_eq!(ok(build_charge_time_schedule(SN, false, 1, 0, 2, 0, false, 3, 0, 4, 0)), (false, 0, 0, 0, 0, false, 0, 0, 0, 0));
    // An enabled window with equal start and end is disabled.
    assert_eq!(ok(build_charge_time_schedule(SN, true, 1, 0, 1, 0, true, 3, 0, 4, 0)), (false, 0, 0, 0, 0, true, 3, 0, 4, 0));
    // Two disjoint windows are kept.
    assert_eq!(ok(build_charge_time_schedule(SN, true, 1, 0, 2, 0, true, 3, 0, 4, 0)), (true, 1, 0, 2, 0, true, 3, 0, 4, 0));
    // Overlap is not checked when a window is disabled.
    assert_eq!(ok(build_charge_time_schedule(SN, true, 1, 0, 3, 0, false, 2, 0, 4, 0)), (true, 1, 0, 3, 0, false, 0, 0, 0, 0));
}

#[test]
fn validating_an_accepted_schedule_again_keeps_it() {
    let first = build_charge_time_schedule(SN, true, 1, 0, 1, 0, true, 3, 0, 4, 0).ok().unwrap();
    let f = fields(&first);
    let again = build_charge_time_schedule(SN, f.0, f.1, f.2, f.3, f.4, f.5, f.6, f.7, f.8, f.9).ok().unwrap();
    assert_eq!(fields(&again), f);
}

#[test]
fn local_time_of_day_is_a_time_of_day() {
    let t = Local.with_ymd_and_hms(2026, 2, 9, 5, 29, 0).unwrap().timestamp_millis();
    assert_eq!(local_time_of_day(t), Some((5, 29)));
    assert_eq!(local_time_of_day(i64::MAX), None);
    // The extreme instants that chrono holds, and one millisecond beyond.
    assert!(local_time_of_day(-8_334_601_228_800_000).is_some());
    assert_eq!(local_time_of_day(-8_334_601_228_800_001), None);
    assert!(local_time_of_day(8_210_266_876_799_999).is_some());
    assert_eq!(local_time_of_day(8_210_266_876_800_000), None);
}

#[test]
fn window_end_is_one_minute_before_the_end() {
    assert_eq!(window_end_instant(3_600_000), Some(3_540_000));
    assert_eq!(window_end_instant(0), Some(-60_000));
    assert_eq!(window_end_instant(i64::MIN + 60_000), Some(i64::MIN));
    assert_eq!(window_end_instant(i64::MIN + 59_999), None);
}

#[test]
fn charge_schedule_instants_out_of_range_are_refused() {
    let out_of_range = |r: Result<(ChargingTimeSchedule, &'static str), FoxError>| match r {
        Err(FoxError::ScheduleBuildError(m)) => m == "charge schedule time is out of range",
        _ => false,
    };
    let h = helper();
    assert!(out_of_range(h.pre_set_battery_charging_time_schedule(true, 0, i64::MIN)));
    assert!(out_of_range(h.pre_set_battery_charging_time_schedule(true, i64::MAX, 3_600_000)));
    assert!(out_of_range(h.pre_set_battery_charging_time_schedule(true, 0, 8_210_266_876_860_000)));
    // The last minute of the window is the latest instant chrono holds.
    assert!(!out_of_range(h.pre_set_battery_charging_time_schedule(true, 0, 8_210_266_876_859_999)));
    // A disabled schedule reads no instant.
    assert!(h.pre_set_battery_charging_time_schedule(false, i64::MAX, i64::MIN).is_ok());
}

#[test]
fn fox_timestamps_are_read_as_utc_milliseconds() {
    let expected = Utc.with_ymd_and_hms(2025, 12, 2, 23, 8, 51).unwrap().timestamp_millis();
    assert_eq!(cet_to_utc("2025-12-03 00:08:51 CET+0100").ok(), Some(expected));
    match cet_to_utc("not a time") {
        Err(FoxError::ChronoParseError(m)) => assert!(!m.is_empty()),
        _ => panic!("expected a parse error"),
    }
    assert_eq!(
        parse_datetime_millis("2025-12-03 00:08:51 CET +0100", "%Y-%m-%d %H:%M:%S %Z %z"),
        Ok(expected)
    );
    assert!(parse_datetime_millis("2025-12-03", "%Y-%m-%d %H:%M:%S %Z %z").is_err());
}

#[test]
fn request_payloads_name_the_inverter_and_keys() {
    let fox = helper();
    let (req, path) = fox.pre_get_setting(FoxSettings::MaxSetChargeCurrent);
    assert_eq!(path, "/op/v0/device/setting/get");
    assert_eq!(req.sn, SN);
    assert_eq!(req.key, "MaxSetChargeCurrent");

    let (req, path) = fox.pre_get_variables(&vec![FoxVariables::SoC, FoxVariables::PvPower]);
    assert_eq!(path, "/op/v1/device/real/query");
    assert_eq!(req.sns, vec![SN.to_string()]);
    assert_eq!(req.variables, vec!["SoC", "pvPower"]);

    let (req, path) = fox.pre_get_variables_history(0, 1, &vec![FoxVariables::PvPower]);
    assert_eq!(path, "/op/v0/device/history/query");
    assert_eq!((req.sn.as_str(), req.variables.clone(), req.begin, req.end), (SN, vec!["pvPower"], 0, 1));

    assert_eq!(fox.pre_get_available_variables().ok(), Some("/op/v0/device/variable/get"));
}

#[test]
fn async_set_setting_typed() {
    let (req, path) = helper().pre_set_setting_typed::<MinSocOnGrid>(&55);
    assert_eq!(path, "/op/v0/device/setting/set");
    assert_eq!((req.sn.as_str(), req.key, req.value.as_str()), (SN, "MinSocOnGrid", "55"));
    let (req, _) = helper().pre_set_setting_typed::<MaxSoc>(&5);
    assert_eq!((req.key, req.value.as_str()), ("MaxSoc", "10"));
}
