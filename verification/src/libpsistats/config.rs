//! The settings that psistats hands to every function of a plugin.
use vstd::prelude::*;
use crate::config_value::ConfigTable;

verus! {

/// Plugin Settings
///
/// This will be passed to all registered plugin functions.
pub struct PluginSettings {
    /// Plugin name
    pub name: String,
    enabled: bool,
    interval: Option<u64>,
    config: ConfigTable,
}

impl PluginSettings {
    /// Settings for the plugin `name`, as the configuration file gives them.
    pub fn new(name: String, enabled: bool, interval: Option<u64>, config: ConfigTable) -> (s: Self)
        ensures
            s.plugin_name() == name,
            s.enabled() == enabled,
            s.interval() == interval,
            s.config() == config,
    {
        PluginSettings { name, enabled, interval, config }
    }

    /// The plugin's name.
    pub closed spec fn plugin_name(&self) -> String {
        self.name
    }

    pub closed spec fn enabled(&self) -> bool {
        self.enabled
    }

    pub closed spec fn interval(&self) -> Option<u64> {
        self.interval
    }

    pub closed spec fn config(&self) -> ConfigTable {
        self.config
    }

    /// The interval in seconds; an unset interval counts as 0.
    pub open spec fn interval_secs(&self) -> u64 {
        match self.interval() {
            Some(v) => v,
            None => 0,
        }
    }

    /// Denotes whether or not the plugin is enabled. If plugin is disabled
    /// it will not be loaded.
    pub fn is_enabled(&self) -> (b: bool)
        ensures
            b == self.enabled(),
    {
        self.enabled
    }

    /// Typically used by reporter plugins. Sets the interval that a plugin
    /// will generate a report. If left unset or set to 0 but the plugin
    /// is still enabled, then the plugin will be loaded but generate no
    /// reports automatically. Useful for on demand reports.
    pub fn get_interval(&self) -> (i: u64)
        ensures
            i == self.interval_secs(),
    {
        match self.interval {
            Some(val) => val,
            None => 0,
        }
    }

    /// List of key/value pairs for arbitrary configuration values for a plugin.
    pub fn get_config(&self) -> (c: &ConfigTable)
        ensures
            *c == self.config(),
    {
        &self.config
    }

    /// Get the plugin's name.
    pub fn get_name(&self) -> (n: &str)
        ensures
            n@ == self.plugin_name()@,
    {
        self.name.as_str()
    }
}

} // verus!
