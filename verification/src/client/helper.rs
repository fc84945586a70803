//! Protocol helpers for the FoxESS API client.
//!
//! This module provides the [`FoxHelper`] struct, which prepares the requests of
//! the FoxESS Open API (paths, payloads, signed headers) and transforms the
//! decoded responses into models. Sending requests and encoding or decoding
//! JSON is left to the caller.

use vstd::prelude::*;
use crate::client::responses::{check_response, response_outcome};
use crate::client::schedule::{build_charge_time_schedule, charge_schedule_outcome, schedule_result_matches};
use crate::client::signing::{fox_headers, generate_headers, headers_view};
use crate::client::time::{local_time_of_day, representable_millis, window_end_instant};
use crate::client::transform::{collect_available_variables, collect_realtime_values, history_outcome,
    info_of_entry, listing_entries, realtime_values, transform_history_data};
use crate::error::FoxError;
use crate::models::dto::{ChargingTimeSchedule, DeviceHistoryResult, DeviceRealTimeResult,
    DeviceSettingsResult, DeviceVariablesResult, FoxResponse, RequestDeviceHistoryData,
    RequestDeviceRealTimeData, RequestSettingsData, SetSetting};
use crate::models::fox_settings::id::FoxSettings;
use crate::models::fox_settings::specification::{SettableSettingSpec, SettingSpec};
use crate::models::fox_variables::id::FoxVariables;
use crate::models::history::VariablesDataHistory;
use crate::models::variables::{AvailableVariables, VariablesData};

verus! {

/// The keys of a list of variables, in order.
pub open spec fn variable_keys(parameters: Seq<FoxVariables>) -> Seq<Seq<char>> {
    parameters.map_values(|p: FoxVariables| p.key())
}

/// The views of a list of string slices.
pub open spec fn str_views(s: Seq<&'static str>) -> Seq<Seq<char>> {
    s.map_values(|x: &'static str| x@)
}

/// The JSON content type header that every request carries.
pub open spec fn json_content_type() -> Seq<(Seq<char>, Seq<char>)> {
    seq![("Content-Type"@, "application/json"@)]
}

fn variable_names(parameters: &Vec<FoxVariables>) -> (r: Vec<&'static str>)
    ensures
        str_views(r@) == variable_keys(parameters@),
{
    let mut names: Vec<&'static str> = Vec::new();
    let mut i: usize = 0;
    while i < parameters.len()
        invariant
            i <= parameters@.len(),
            str_views(names@) =~= variable_keys(parameters@.take(i as int)),
        decreases parameters@.len() - i,
    {
        let ghost prev = names@;
        names.push(parameters[i].as_str());
        proof {
            assert(str_views(names@) =~= str_views(prev).push(parameters@[i as int].key()));
            assert(variable_keys(parameters@.take(i + 1)) =~= variable_keys(parameters@.take(i as int)).push(parameters@[i as int].key()));
        }
        i = i + 1;
    }
    assert(parameters@.take(parameters@.len() as int) =~= parameters@);
    names
}

/// Whether both instants of a charging window that starts at `start` and ends
/// (non-inclusive) at `end` can be represented by chrono: the start, and the
/// last minute that the window covers, one minute before the end.
pub open spec fn charge_window_representable(start: int, end: int) -> bool {
    representable_millis(start) && representable_millis(end - 60_000)
}

/// Whether preparing a charging schedule was refused because an instant of
/// its window is out of range.
pub open spec fn schedule_time_out_of_range(r: Result<(ChargingTimeSchedule, &'static str), FoxError>) -> bool {
    r matches Err(FoxError::ScheduleBuildError(m)) && m@ == "charge schedule time is out of range"@
}

/// Validating a single window never reports an instant out of range.
proof fn lemma_outcome_is_not_out_of_range(sh: u8, sm: u8, eh: u8, em: u8)
    ensures
        charge_schedule_outcome(true, sh, sm, eh, em, false, 0, 0, 0, 0) matches Err(msg)
            ==> msg != "charge schedule time is out of range"@,
{
    // The message of an instant out of range differs from every message of
    // validation in its first or its seventeenth character.
    reveal_strlit("charge schedule time is out of range");
    reveal_strlit("charge schedule 1 start time error");
    reveal_strlit("charge schedule 1 end time error");
    reveal_strlit("charge schedule 1 start time is after end time");
    reveal_strlit("overlapping charge schedules");
    let out_of_range = "charge schedule time is out of range"@;
    assert(out_of_range[16] == 't');
    assert("charge schedule 1 start time error"@[16] == '1');
    assert("charge schedule 1 end time error"@[16] == '1');
    assert("charge schedule 1 start time is after end time"@[16] == '1');
    assert("overlapping charge schedules"@[0] == 'o');
    assert(out_of_range[0] == 'c');
}

/// What the client needs to address and sign its requests.
pub struct FoxHelper {
    /// The FoxESS API key.
    pub api_key: String,
    /// The serial number of the inverter.
    pub sn: String,
    /// The base URL of the FoxESS API.
    pub base_url: String,
}

impl FoxHelper {
    /// Returns a new instance of the [`FoxHelper`] struct.
    ///
    /// # Arguments
    /// * `api_key` - The FoxESS API Key.
    /// * `sn` - The FoxESS inverter serial number.
    /// * `base_url` - The base URL for the FoxESS API.
    pub fn new(api_key: &str, sn: &str, base_url: &str) -> (r: Self)
        ensures
            r.api_key@ == api_key@,
            r.sn@ == sn@,
            r.base_url@ == base_url@,
    {
        FoxHelper { api_key: api_key.to_owned(), sn: sn.to_owned(), base_url: base_url.to_owned() }
    }

    /// Pre-network request: Prepare the request for historical data.
    ///
    /// # Arguments
    /// * `start` - The start of the data range, in milliseconds since the Unix epoch.
    /// * `end` - The end of the data range, in milliseconds since the Unix epoch.
    /// * `parameters` - A list of variables to retrieve.
    ///
    /// # Returns
    /// * The request body and the API path.
    pub fn pre_get_variables_history(&self, start: i64, end: i64, parameters: &Vec<FoxVariables>)
        -> (r: (RequestDeviceHistoryData, &'static str))
        ensures
            r.0.sn@ == self.sn@,
            str_views(r.0.variables@) == variable_keys(parameters@),
            r.0.begin == start,
            r.0.end == end,
            r.1@ == "/op/v0/device/history/query"@,
    {
        let req = RequestDeviceHistoryData {
            sn: self.sn.clone(),
            variables: variable_names(parameters),
            begin: start,
            end: end,
        };
        (req, "/op/v0/device/history/query")
    }

    /// Post-network request: Process the decoded response of the historical data request.
    ///
    /// # Returns
    /// * `Result<VariablesDataHistory<V>, FoxError>` - The historical data points of each variable.
    pub fn post_get_variables_history<V: Copy>(&self, data: &DeviceHistoryResult<V>)
        -> (r: Result<VariablesDataHistory<V>, FoxError>)
        ensures
            match history_outcome(data.result@) {
                Ok(m) => r matches Ok(h) && h.series_map() == m,
                Err(e) => r matches Err(FoxError::ChronoParseError(msg)) && msg@ == e,
            },
    {
        transform_history_data(&data.result)
    }

    /// Pre-network request: Prepare the request for real-time data.
    ///
    /// # Returns
    /// * The request body and the API path.
    pub fn pre_get_variables(&self, variables: &Vec<FoxVariables>) -> (r: (RequestDeviceRealTimeData, &'static str))
        ensures
            str_views(r.0.variables@) == variable_keys(variables@),
            r.0.sns@.len() == 1,
            r.0.sns@[0]@ == self.sn@,
            r.1@ == "/op/v1/device/real/query"@,
    {
        let mut sns: Vec<String> = Vec::new();
        sns.push(self.sn.clone());
        let req = RequestDeviceRealTimeData { variables: variable_names(variables), sns };
        (req, "/op/v1/device/real/query")
    }

    /// Post-network request: Process the decoded response of the real-time data request.
    ///
    /// Only the first result is read, and only variables that the registry
    /// knows are kept.
    pub fn post_get_variables<V: Copy>(&self, data: &DeviceRealTimeResult<V>) -> (r: VariablesData<V>)
        ensures
            r.values() == (if data.result@.len() == 0 {
                Map::<FoxVariables, V>::empty()
            } else {
                realtime_values(data.result@[0].datas@)
            }),
    {
        if data.result.len() == 0 {
            return VariablesData::new();
        }
        collect_realtime_values(&data.result[0].datas)
    }

    /// Pre-network request: Prepare the request for a single setting.
    ///
    /// # Returns
    /// * The request body and the API path.
    pub fn pre_get_setting(&self, setting: FoxSettings) -> (r: (RequestSettingsData, &'static str))
        ensures
            r.0.sn@ == self.sn@,
            r.0.key@ == setting.key(),
            r.1@ == "/op/v0/device/setting/get"@,
    {
        (RequestSettingsData { sn: self.sn.clone(), key: setting.as_str() }, "/op/v0/device/setting/get")
    }

    /// Post-network request: Process the decoded response of the get setting request.
    ///
    /// # Returns
    /// * The raw string value of the setting.
    pub fn post_get_setting(&self, data: DeviceSettingsResult) -> (r: String)
        ensures
            r@ == data.result.value@,
    {
        data.result.value
    }

    /// Pre-network request: Prepare the request to set a single inverter setting.
    ///
    /// # Type Parameters
    /// * `S` - A [`SettableSettingSpec`] describing which setting can be set and how to format it.
    ///
    /// # Returns
    /// * The request body and the API path.
    pub fn pre_set_setting_typed<S: SettableSettingSpec>(&self, value: &S::Value) -> (r: (SetSetting, &'static str))
        ensures
            r.0.sn@ == self.sn@,
            r.0.key@ == S::SETTING.key(),
            r.0.value@ == S::formatted(*value),
            r.1@ == "/op/v0/device/setting/set"@,
    {
        let data = S::format(value);
        (SetSetting { sn: self.sn.clone(), key: S::SETTING.as_str(), value: data }, "/op/v0/device/setting/set")
    }

    /// Builds the battery charging schedule for one window given by its local
    /// start and end times of day (hour, minute); the end is the last minute
    /// that the window covers. The second window is disabled.
    pub fn charging_time_schedule(&self, enable: bool, start: (u8, u8), end: (u8, u8))
        -> (r: Result<ChargingTimeSchedule, FoxError>)
        ensures
            schedule_result_matches(r, self.sn@,
                charge_schedule_outcome(enable, start.0, start.1, end.0, end.1, false, 0, 0, 0, 0)),
    {
        build_charge_time_schedule(self.sn.as_str(), enable, start.0, start.1, end.0, end.1, false, 0, 0, 0, 0)
    }

    /// Pre-network request: Prepare the request to set the battery charging time schedule.
    ///
    /// This is the standard charging scheduler setting. When enabled, the window
    /// runs from the local time of day of `start` to the local time of day of
    /// [`window_end_instant`]`(end)`, one minute before `end` (the end is
    /// non-inclusive). A disabled schedule is zeroed.
    ///
    /// An enabled schedule whose instants chrono cannot represent, or whose end
    /// lies less than a minute above `i64::MIN`, is refused with
    /// `ScheduleBuildError("charge schedule time is out of range")`.
    ///
    /// # Arguments
    /// * `enable` - Whether schedule 1 should be enabled.
    /// * `start` - The start of schedule 1, in milliseconds since the Unix epoch.
    /// * `end` - The end of schedule 1, in milliseconds since the Unix epoch (non-inclusive).
    ///
    /// # Returns
    /// * The schedule to send and the API path.
    pub fn pre_set_battery_charging_time_schedule(&self, enable: bool, start: i64, end: i64)
        -> (r: Result<(ChargingTimeSchedule, &'static str), FoxError>)
        ensures
            r matches Ok((_, path)) ==> path@ == "/op/v0/device/battery/forceChargeTime/set"@,
            !enable ==> schedule_result_matches(
                match r { Ok((s, _)) => Ok(s), Err(e) => Err(e) }, self.sn@,
                charge_schedule_outcome(false, 0, 0, 0, 0, false, 0, 0, 0, 0)),
            enable && end < i64::MIN + 60_000 ==> schedule_time_out_of_range(r),
            enable ==> (schedule_time_out_of_range(r)
                <==> !charge_window_representable(start as int, end as int)),
            enable && charge_window_representable(start as int, end as int) ==>
                exists|sh: u8, sm: u8, eh: u8, em: u8|
                sh < 24 && sm < 60 && eh < 24 && em < 60 && schedule_result_matches(
                    match r { Ok((s, _)) => Ok(s), Err(e) => Err(e) }, self.sn@,
                    #[trigger] charge_schedule_outcome(true, sh, sm, eh, em, false, 0, 0, 0, 0)),
    {
        let path = "/op/v0/device/battery/forceChargeTime/set";
        let mut start_local: (u8, u8) = (0, 0);
        let mut end_local: (u8, u8) = (0, 0);
        if enable {
            let start_time = local_time_of_day(start);
            match (start_time, window_end_instant(end)) {
                (Some(s), Some(e)) => match local_time_of_day(e) {
                    Some(e) => {
                        start_local = s;
                        end_local = e;
                    },
                    None => {
                        return Err(FoxError::ScheduleBuildError("charge schedule time is out of range".to_owned()));
                    },
                },
                _ => {
                    return Err(FoxError::ScheduleBuildError("charge schedule time is out of range".to_owned()));
                },
            }
        }
        let r = self.charging_time_schedule(enable, start_local, end_local);
        proof {
            if enable {
                lemma_outcome_is_not_out_of_range(start_local.0, start_local.1, end_local.0, end_local.1);
            }
        }
        match r {
            Ok(s) => Ok((s, path)),
            Err(e) => Err(e),
        }
    }

    /// Pre-network request: Prepare the request for available variables.
    ///
    /// # Returns
    /// * `Result<&'static str, FoxError>` - The API path.
    pub fn pre_get_available_variables(&self) -> (r: Result<&'static str, FoxError>)
        ensures
            r matches Ok(path) && path@ == "/op/v0/device/variable/get"@,
    {
        Ok("/op/v0/device/variable/get")
    }

    /// Post-network request: Process the decoded response of the get available variables request.
    ///
    /// # Returns
    /// * The available variables: one per entry of the payload, the entry's
    ///   first variable, under its English name or its key.
    pub fn post_get_available_variables(&self, data: DeviceVariablesResult) -> (r: AvailableVariables)
        ensures
            r.variables@.len() == listing_entries(data.result@).len(),
            forall|j: int| 0 <= j < r.variables@.len() ==>
                info_of_entry(#[trigger] listing_entries(data.result@)[j], r.variables@[j]),
    {
        collect_available_variables(data.result)
    }

    /// Pre-network request: Prepare a POST request.
    ///
    /// # Arguments
    /// * `path` - The API path, excluding the domain.
    /// * `timestamp_millis` - The current time, in milliseconds since the Unix epoch.
    ///
    /// # Returns
    /// * The full URL and the required headers, as name and value pairs.
    pub fn pre_network_post_request(&self, path: &str, timestamp_millis: i64) -> (r: (String, Vec<(String, String)>))
        ensures
            r.0@ == self.base_url@ + path@,
            headers_view(r.1@) == fox_headers(self.api_key@, path@, timestamp_millis, json_content_type()),
    {
        self.pre_network_request(path, timestamp_millis)
    }

    /// Post-network request: Validate the response to a POST request.
    ///
    /// # Returns
    /// * The body if the response is successful.
    pub fn post_network_post_request(&self, status: u16, envelope: Result<FoxResponse, String>, body: String)
        -> (r: Result<String, FoxError>)
        ensures
            response_outcome(status, envelope, body@, r),
    {
        check_response(status, envelope, body)
    }

    /// Pre-network request: Prepare a GET request.
    ///
    /// # Returns
    /// * The full URL and the required headers, as name and value pairs.
    pub fn pre_network_get_request(&self, path: &str, timestamp_millis: i64) -> (r: (String, Vec<(String, String)>))
        ensures
            r.0@ == self.base_url@ + path@,
            headers_view(r.1@) == fox_headers(self.api_key@, path@, timestamp_millis, json_content_type()),
    {
        self.pre_network_request(path, timestamp_millis)
    }

    /// Post-network request: Validate the response to a GET request.
    ///
    /// # Returns
    /// * The body if the response is successful.
    pub fn post_network_get_request(&self, status: u16, envelope: Result<FoxResponse, String>, body: String)
        -> (r: Result<String, FoxError>)
        ensures
            response_outcome(status, envelope, body@, r),
    {
        check_response(status, envelope, body)
    }

    fn pre_network_request(&self, path: &str, timestamp_millis: i64) -> (r: (String, Vec<(String, String)>))
        ensures
            r.0@ == self.base_url@ + path@,
            headers_view(r.1@) == fox_headers(self.api_key@, path@, timestamp_millis, json_content_type()),
    {
        let mut url = self.base_url.clone();
        url.append(path);
        let mut extra: Vec<(&str, &str)> = Vec::new();
        extra.push(("Content-Type", "application/json"));
        let headers = generate_headers(self.api_key.as_str(), path, timestamp_millis, Some(extra));
        proof {
            assert(crate::client::signing::extra_view(extra@) =~= json_content_type());
        }
        (url, headers)
    }
}

} // verus!
