//! Payloads exchanged with FoxESS Cloud: the bodies of requests, and what
//! the bodies of responses hold once decoded.

use vstd::prelude::*;

verus! {

/// Request for device history data.
pub struct RequestDeviceHistoryData {
    /// Device serial number.
    pub sn: String,
    /// List of variable names to retrieve.
    pub variables: Vec<&'static str>,
    /// Start timestamp (Unix milliseconds).
    pub begin: i64,
    /// End timestamp (Unix milliseconds).
    pub end: i64,
}

/// Request for device real-time data.
pub struct RequestDeviceRealTimeData {
    /// List of variable names to retrieve.
    pub variables: Vec<&'static str>,
    /// List of device serial numbers.
    pub sns: Vec<String>,
}

/// Request for device settings data.
pub struct RequestSettingsData {
    /// Device serial number.
    pub sn: String,
    /// Setting key.
    pub key: &'static str,
}

/// Request to update a device setting.
pub struct SetSetting {
    /// Device serial number.
    pub sn: String,
    /// Setting key.
    pub key: &'static str,
    /// New value for the setting.
    pub value: String,
}

/// Representation of a specific time (hour and minute).
#[derive(Debug, Clone, Copy, PartialEq, Eq, Structural)]
pub struct ChargingTime {
    /// Hour (0-23).
    pub hour: u8,
    /// Minute (0-59).
    pub minute: u8,
}

/// Charging time schedule configuration.
pub struct ChargingTimeSchedule {
    /// Device serial number.
    pub sn: String,
    /// Whether the first time period is enabled.
    pub enable_1: bool,
    /// Start time for the first period.
    pub start_time_1: ChargingTime,
    /// End time for the first period.
    pub end_time_1: ChargingTime,
    /// Whether the second time period is enabled.
    pub enable_2: bool,
    /// Start time for the second period.
    pub start_time_2: ChargingTime,
    /// End time for the second period.
    pub end_time_2: ChargingTime,
}

/// The envelope of every FoxESS Cloud response: its error number and message.
/// A response that omits `msg` is read with an empty message.
pub struct FoxResponse {
    /// The error number; 0 means success.
    pub errno: u32,
    /// The message that accompanies the error number.
    pub msg: String,
}

/// Settings data containing a single value.
pub struct SettingsData {
    /// The setting value as a string.
    pub value: String,
}

/// Result of a device settings query.
pub struct DeviceSettingsResult {
    /// The settings data.
    pub result: SettingsData,
}

/// Variable information containing unit and localized names.
pub struct DeviceVariableInfo {
    /// The unit of the variable (e.g., "kW", "V").
    pub unit: Option<String>,
    /// Localized names for the variable, as pairs of language and name.
    pub name: Vec<(String, String)>,
    /// Enumeration values for the variable, if any, as pairs of value and meaning.
    pub enumeration: Option<Vec<(String, String)>>,
}

/// Result of a device variables query.
pub struct DeviceVariablesResult {
    /// List of variables; each entry maps variable names to their info.
    pub result: Vec<Vec<(String, DeviceVariableInfo)>>,
}

/// A single data point containing a timestamp and a value.
pub struct Data<V> {
    /// Timestamp or time string.
    pub time: String,
    /// The recorded value.
    pub value: V,
}

/// A set of data points for a specific variable.
pub struct DataSet<V> {
    /// List of data points.
    pub data: Vec<Data<V>>,
    /// The variable name.
    pub variable: String,
}

/// Historical data for a device.
pub struct DeviceHistoryData<V> {
    /// List of data sets.
    pub data_set: Vec<DataSet<V>>,
}

/// Result of a device history query.
pub struct DeviceHistoryResult<V> {
    /// List of history data.
    pub result: Vec<DeviceHistoryData<V>>,
}

/// Real-time data for a single variable.
pub struct RealTimeData<V> {
    /// The variable name.
    pub variable: String,
    /// The current value.
    pub value: V,
}

/// Wrapper for real-time variables data.
pub struct RealTimeVariables<V> {
    /// List of real-time data points.
    pub datas: Vec<RealTimeData<V>>,
}

/// Result of a real-time data query.
pub struct DeviceRealTimeResult<V> {
    /// List of real-time variables.
    pub result: Vec<RealTimeVariables<V>>,
}

} // verus!
