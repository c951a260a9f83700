//! psistats: a small plugin-based system statistics reporter.
pub mod text;
pub mod table;
pub mod config_value;
pub mod libpsistats;
pub mod host;
pub mod service;
pub mod schedule;
pub mod service_api;
pub mod plugins;
pub mod legacy;
