//! The plugin service: reporter and publisher plugins registered by kind,
//! each with its own configuration entry, and the managers that run them.
pub mod config;
pub mod api;
pub mod registry;
pub mod simple_registry;
pub mod loader;
pub mod service_loader;
pub mod manager;
