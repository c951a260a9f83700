//! The plugin library: what a plugin implements, what it registers into,
//! the values it reports and the settings it is given.
pub mod commands;
pub mod errors;
pub mod config;
pub mod reports;


pub mod registrar;
pub mod loader;
