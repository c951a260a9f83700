//! What a service plugin implements and registers, and what it reports.
use vstd::prelude::*;
use std::sync::Arc;
use crate::table::NamedTable;
use crate::service_api::config::{ReporterConfig, PublisherConfig};

verus! {

/// A reporter function is called on demand and/or on an interval. It
/// generates reports that can then be published.
pub trait ReporterFunction: Send {
    fn call(&self, config: &ReporterConfig) -> Result<PsistatsReport, PluginError>;
}

/// A reporter init function is called when the service starts.
pub trait ReporterInitFunction: Send {
    fn call(&self, config: &ReporterConfig) -> Result<(), PluginError>;
}

/// A publisher function is called every time a report has been generated.
pub trait PublisherFunction: Send {
    fn call(&self, report: &PsistatsReport, config: &PublisherConfig) -> Result<(), PluginError>;
}

/// A publisher init function is called when the service starts.
pub trait PublisherInitFunction: Send {
    fn call(&self, config: &PublisherConfig) -> Result<(), PluginError>;
}

/// List of plugin function types.
pub enum FunctionType {
    /// Called every time a report has been generated.
    Publisher(Box<dyn PublisherFunction>),
    /// Called when the service starts.
    PublisherInit(Box<dyn PublisherInitFunction>),
    /// Called on demand and/or on an interval; generates reports.
    Reporter(Box<dyn ReporterFunction>),
    /// Called when the service starts.
    ReporterInit(Box<dyn ReporterInitFunction>),
}

#[derive(Debug, Clone)]
pub enum PluginError {
    FunctionNotFound { p: String, fname: String },
    PluginFileNotFound { p: String },
    PluginDeclNotFound { p: String },
    Other { p: String, msg: String },
    Runtime { p: String, msg: String },
}

/// The text that describes a plugin error.
pub open spec fn plugin_error_message(e: PluginError) -> Seq<char> {
    match e {
        PluginError::FunctionNotFound { p, fname } => "Plugin "@ + p@ + " is lacking function "@ + fname@,
        PluginError::PluginFileNotFound { p } => "Could not find plugin file for plugin "@ + p@,
        PluginError::PluginDeclNotFound { p } => "Plugin declration not found for plugin "@ + p@,
        PluginError::Other { p, msg } => "Error with plugin "@ + p@ + ": "@ + msg@,
        PluginError::Runtime { p, msg } => "Plugin "@ + p@ + " failed to execute: "@ + msg@,
    }
}

impl PluginError {
    /// The text that describes this error.
    pub fn message(&self) -> (m: String)
        ensures
            m@ == plugin_error_message(*self),
    {
        match self {
            PluginError::FunctionNotFound { p, fname } => {
                String::from_str("Plugin ").concat(p.as_str()).concat(" is lacking function ").concat(fname.as_str())
            },
            PluginError::PluginFileNotFound { p } => {
                String::from_str("Could not find plugin file for plugin ").concat(p.as_str())
            },
            PluginError::PluginDeclNotFound { p } => {
                String::from_str("Plugin declration not found for plugin ").concat(p.as_str())
            },
            PluginError::Other { p, msg } => {
                String::from_str("Error with plugin ").concat(p.as_str()).concat(": ").concat(msg.as_str())
            },
            PluginError::Runtime { p, msg } => {
                String::from_str("Plugin ").concat(p.as_str()).concat(" failed to execute: ").concat(msg.as_str())
            },
        }
    }
}

/// A plugin registrar is used to register plugins.
pub trait PluginRegistrar: Send {
    /// Each plugin calls this method to register each function it offers.
    fn register_plugin(&mut self, name: &str, func: FunctionType);

    /// Register a plugin library. It's necessary to keep a reference of the
    /// plugin library active.
    fn register_lib(&mut self, lib: Arc<libloading::Library>);

    /// Get a reporter init function
    fn get_reporter_init(&self, name: &str) -> Result<&Box<dyn ReporterInitFunction>, PluginError>;

    /// Get a reporter function
    fn get_reporter(&self, name: &str) -> Result<&Box<dyn ReporterFunction>, PluginError>;

    /// Get a publisher init function
    fn get_publisher_init(&self, name: &str) -> Result<&Box<dyn PublisherInitFunction>, PluginError>;

    /// Get a publisher function
    fn get_publisher(&self, name: &str) -> Result<&Box<dyn PublisherFunction>, PluginError>;
}

/// A possible report value. A float is held by its IEEE-754 bit pattern,
/// which the library only carries.
#[derive(Debug)]
pub enum ReportValue {
    Integer(i64),
    Float(u64),
    String(String),
    Array(Vec<ReportValue>),
    Object(NamedTable<ReportValue>),
}

/// A PsistatsReport is what a reporter function returns.
#[derive(Debug)]
pub struct PsistatsReport {
    pub id: String,
    pub value: ReportValue,
}

impl PsistatsReport {
    pub fn new(id: &str, value: ReportValue) -> (r: Self)
        ensures
            r.id@ == id@,
            r.value == value,
    {
        PsistatsReport { id: String::from_str(id), value: value }
    }

    pub fn get_id(&self) -> (r: &String)
        ensures
            r == &self.id,
    {
        &self.id
    }

    pub fn get_value(&self) -> (r: &ReportValue)
        ensures
            r == &self.value,
    {
        &self.value
    }
}

} // verus!
