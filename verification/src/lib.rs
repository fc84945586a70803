//! # Foxess API client library
//!
//! The foxess crate implements a subset of the FoxESS Cloud Open API: the
//! protocol logic of the client. It signs requests, prepares their payloads,
//! validates battery charging schedules, classifies the responses of the
//! cloud and transforms their payloads into models.
//!
//! The transport itself (HTTP, JSON encoding and decoding, the clock) is
//! performed by the caller, which hands plain values to the functions of
//! this crate: instants are milliseconds since the Unix epoch, and the
//! values of variables are of any type the caller decodes them to.

pub mod text;
pub mod error;
pub mod client;
pub mod models;
pub mod fox_settings;
pub mod fox_variables;

pub use client::helper::FoxHelper;
pub use error::{FoxError, TransportError};
pub use models::fox_variables::id::FoxVariables;
pub use models::fox_settings::id::FoxSettings;
pub use models::fox_scheduler::id::FoxWorkModes;
pub use models::parameter::FoxParameter;
pub use models::history::{VariableDataSet, VariablesDataHistory};
pub use models::variables::{AvailableVariables, VariableDataPoint, VariableInfo, VariablesData};
pub use models::settings::{SettingsData, SettingsDataPoint};
pub use models::main_switch::MainSwitchStatus;
pub use models::scheduler::{ExtraParam, Group, MetaData, Properties, Range, TimeSegmentsData, TimeSegmentsDataRequest, WorkMode};
