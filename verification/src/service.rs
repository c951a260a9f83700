//! The psistats service: its configuration, how it names the host, and the
//! workers that schedule, produce, publish and request reports.
pub mod config;
pub mod hostname;

pub mod utils;
pub mod workers;
pub mod startup;
