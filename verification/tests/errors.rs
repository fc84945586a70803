use foxess::{FoxError, TransportError};

#[test]
fn errno_is_reported_for_cloud_errors_only() {
    let e = FoxError::FoxCloud { errno: 40256, msg: "The request header parameters are missing".to_string() };
    assert_eq!(e.errno(), Some(40256));
    assert_eq!(e.http_status(), None);
    assert!(!e.is_transient());
    let msg = e.message();
    assert_eq!(msg, "FoxCloud: errno=40256, msg=The request header parameters are missing");
}

#[test]
fn http_status_errors_report_their_status() {
    let e = FoxError::HttpStatus { status: 500, body: "oops".to_string() };
    assert_eq!(e.http_status(), Some(500));
    assert_eq!(e.errno(), None);
    assert!(e.is_transient());
    assert_eq!(e.message(), "HttpStatus: status=500, body=oops");

    assert!(FoxError::HttpStatus { status: 429, body: String::new() }.is_transient());
    assert!(!FoxError::HttpStatus { status: 404, body: String::new() }.is_transient());
    assert!(!FoxError::HttpStatus { status: 499, body: String::new() }.is_transient());
    assert!(FoxError::HttpStatus { status: 503, body: String::new() }.is_transient());
    assert!(FoxError::HttpStatus { status: 599, body: String::new() }.is_transient());
    assert!(!FoxError::HttpStatus { status: 600, body: String::new() }.is_transient());
}

#[test]
fn transport_errors_are_transient_on_timeout_or_connect() {
    let t = |is_timeout, is_connect| FoxError::ReqwestError(TransportError {
        message: "boom".to_string(),
        is_timeout,
        is_connect,
    });
    assert!(t(true, false).is_transient());
    assert!(t(false, true).is_transient());
    assert!(!t(false, false).is_transient());
    assert_eq!(t(false, false).message(), "ReqwestError: boom");
}

#[test]
fn local_errors_are_never_transient() {
    let errors = vec![
        FoxError::JsonParseError("expected value".to_string()),
        FoxError::ChronoParseError("input contains invalid characters".to_string()),
        FoxError::SettingParseError { setting: "MaxSoc", value: "x".to_string(), error: "invalid digit found in string".to_string() },
        FoxError::VariableConversionError { variable: "SoC", value: "110".to_string(), error: "value out of range for u8 percentage after rounding".to_string() },
        FoxError::VariableNotFoundError { variable: "SoC" },
        FoxError::ScheduleBuildError("overlapping charge schedules".to_string()),
    ];
    for e in &errors {
        assert!(!e.is_transient());
        assert_eq!(e.errno(), None);
        assert_eq!(e.http_status(), None);
    }
    assert_eq!(errors[0].message(), "JsonParseError: expected value");
    assert_eq!(errors[1].message(), "ChronoParseError: input contains invalid characters");
    assert_eq!(errors[2].message(), "SettingParseError: setting=MaxSoc, value=x, error=invalid digit found in string");
    assert_eq!(errors[3].message(), "VariableConversionError: variable=SoC, value=110, error=value out of range for u8 percentage after rounding");
    assert_eq!(errors[4].message(), "VariableNotFoundError: variable=SoC");
    assert_eq!(errors[5].message(), "ScheduleBuildError: overlapping charge schedules");
}
