//! The logic of the bundled plugins: weather, sensors, MQTT publishing,
//! memory and operating system reports.
pub mod weather;
pub mod envcanada;
pub mod sensors;
pub mod mqtt;
pub mod system;
