use foxess::models::scheduler::{extra_param_is_none_or_empty, work_modes_from_names};
use foxess::{ExtraParam, FoxParameter, FoxWorkModes, Group, MainSwitchStatus, TimeSegmentsDataRequest};

fn no_params() -> ExtraParam<f64> {
    ExtraParam {
        fd_pwr: None,
        min_soc_on_grid: None,
        fd_soc: None,
        max_soc: None,
        import_limit: None,
        export_limit: None,
        pv_limit: None,
        reactive_power: None,
    }
}

#[test]
fn extra_params_are_empty_when_all_are_none() {
    assert!(no_params().is_empty());
    let some = ExtraParam { fd_soc: Some(80.0), ..no_params() };
    assert!(!some.is_empty());
    let last = ExtraParam { reactive_power: Some(0.0), ..no_params() };
    assert!(!last.is_empty());
    assert!(extra_param_is_none_or_empty::<f64>(&None));
    assert!(extra_param_is_none_or_empty(&Some(no_params())));
    assert!(!extra_param_is_none_or_empty(&Some(some)));
}

#[test]
fn async_get_scheduler_time_segments() {
    let names: Vec<String> = ["ForceDischarge", "PeakShaving", "Feedin", "Backup", "SelfUse", "ForceCharge"]
        .iter()
        .map(|s| s.to_string())
        .collect();
    let modes = work_modes_from_names(&names);
    assert_eq!(modes.len(), 6);
    assert_eq!(modes.contains(&FoxWorkModes::Unknown), false);
    assert_eq!(modes[4], FoxWorkModes::SelfUse);
    let odd = work_modes_from_names(&vec!["Boost".to_string()]);
    assert_eq!(odd, vec![FoxWorkModes::Unknown]);
}

#[test]
fn async_set_scheduler_time_segments() {
    let ts = TimeSegmentsDataRequest {
        is_default: None,
        groups: vec![
            Group {
                start_hour: 0,
                start_minute: 0,
                end_hour: 2,
                end_minute: 59,
                work_mode: FoxWorkModes::ForceCharge,
                extra_param: Some(ExtraParam {
                    fd_pwr: Some(12000.0),
                    min_soc_on_grid: Some(10.0),
                    fd_soc: Some(80.0),
                    max_soc: Some(100.0),
                    import_limit: None,
                    export_limit: None,
                    pv_limit: None,
                    reactive_power: None,
                }),
            },
            Group { start_hour: 3, start_minute: 0, end_hour: 7, end_minute: 59, work_mode: FoxWorkModes::Backup, extra_param: None },
            Group { start_hour: 8, start_minute: 0, end_hour: 23, end_minute: 59, work_mode: FoxWorkModes::SelfUse, extra_param: None },
        ],
    };
    assert!(!ts.restores_defaults());
    assert_eq!(ts.groups[0].work_mode.as_str(), "ForceCharge");
    assert!(!extra_param_is_none_or_empty(&ts.groups[0].extra_param));
    assert!(extra_param_is_none_or_empty(&ts.groups[1].extra_param));
    let explicit: TimeSegmentsDataRequest<f64> = TimeSegmentsDataRequest { is_default: Some(true), groups: vec![] };
    assert!(explicit.restores_defaults());
}

#[test]
fn async_get_main_switch_status() {
    let s = MainSwitchStatus { support: true, enable: false };
    assert_eq!(s.support, true);
    assert_eq!(s.enable, false);
}

#[test]
fn legacy_parameters_share_the_variable_keys() {
    for p in [FoxParameter::PvPower, FoxParameter::LoadsPower, FoxParameter::SoC, FoxParameter::SoH] {
        assert_eq!(FoxParameter::from_key(p.as_str()), Some(p));
        assert!(foxess::FoxVariables::from_key(p.as_str()).is_some());
    }
    assert_eq!(FoxParameter::SoH.as_str(), "SOH");
    assert_eq!("loadsPower".parse::<FoxParameter>(), Ok(FoxParameter::LoadsPower));
    assert_eq!("SoH".parse::<FoxParameter>(), Err(()));
}
