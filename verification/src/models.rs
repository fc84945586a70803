//! The data models of the client: identifiers of variables, settings and
//! work modes, the payloads exchanged with FoxESS Cloud, and the models that
//! hold what the cloud answered.

pub mod fox_settings;
pub mod fox_variables;
pub mod fox_scheduler;
pub mod dto;
pub mod entries;
pub mod variables;
pub mod settings;
pub mod history;
pub mod main_switch;
pub mod parameter;
pub mod scheduler;
pub mod names;
