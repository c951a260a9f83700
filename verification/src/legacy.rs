//! The first generation of psistats: built-in reporters and publishers
//! chosen by the sections of one TOML configuration.
pub mod reporters;
pub mod publishers;

pub mod manager;
pub mod mqtt;
