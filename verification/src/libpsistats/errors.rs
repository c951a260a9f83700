//! Errors that the plugin library and plugins report.
use vstd::prelude::*;

verus! {

/// List of errors the plugin library will generate.
#[derive(Debug, Clone)]
pub enum PsistatsError {
    /// The required `PSISTATS_PLUGIN` exported symbol is not found.
    RegisterFuncNotFound(String),
    /// A plugin file is not found.
    PluginFileNotFound(String),
    /// A plugin configuration can't be found.
    PluginConfigNotFound(String),
    /// The plugin loader can't read the `PSISTATS_PLUGIN` declaration.
    PluginDeclError(String),
    /// There was a problem loading the plugin file.
    PluginLibError(String),
    /// Catchall error for other errors.
    Runtime(String),
}

/// The text that describes an error.
pub open spec fn error_message(e: PsistatsError) -> Seq<char> {
    match e {
        PsistatsError::RegisterFuncNotFound(s) => "Plugin register function not found for plugin "@ + s@,
        PsistatsError::PluginFileNotFound(s) => "Plugin file not found for plugin "@ + s@,
        PsistatsError::PluginConfigNotFound(s) => "Configuration for "@ + s@ + " not found"@,
        PsistatsError::PluginDeclError(s) => "Error with the plugin declaration: "@ + s@,
        PsistatsError::PluginLibError(s) => "Error with the plugin lib: "@ + s@,
        PsistatsError::Runtime(s) => "Runtime error "@ + s@,
    }
}

impl PsistatsError {
    /// The text that describes this error.
    pub fn message(&self) -> (m: String)
        ensures
            m@ == error_message(*self),
    {
        match self {
            PsistatsError::RegisterFuncNotFound(s) => {
                String::from_str("Plugin register function not found for plugin ").concat(s.as_str())
            },
            PsistatsError::PluginFileNotFound(s) => {
                String::from_str("Plugin file not found for plugin ").concat(s.as_str())
            },
            PsistatsError::PluginConfigNotFound(s) => {
                String::from_str("Configuration for ").concat(s.as_str()).concat(" not found")
            },
            PsistatsError::PluginDeclError(s) => {
                String::from_str("Error with the plugin declaration: ").concat(s.as_str())
            },
            PsistatsError::PluginLibError(s) => {
                String::from_str("Error with the plugin lib: ").concat(s.as_str())
            },
            PsistatsError::Runtime(s) => String::from_str("Runtime error ").concat(s.as_str()),
        }
    }
}

} // verus!
