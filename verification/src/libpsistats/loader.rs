//! Where the plugin loader looks for a plugin's library.
use vstd::prelude::*;
use crate::host::{HostOs, plugin_file_path, build_plugin_path};
use crate::libpsistats::errors::PsistatsError;

verus! {

/// Plugin Loader
///
/// The plugin loader loads plugins from a specified directory. Plugins in
/// the directory are expected to be named `libplugin_[name].so` on Linux
/// and `plugin_[name].dll` on Windows.
pub struct PluginLoader {
    plugin_dir: String,
}

impl PluginLoader {
    pub closed spec fn dir(&self) -> Seq<char> {
        self.plugin_dir@
    }

    pub fn new(plugin_dir: String) -> (l: Self)
        ensures
            l.dir() == plugin_dir@,
    {
        PluginLoader { plugin_dir }
    }

    /// The library file of the plugin `plugin_name` on the host `os`; a
    /// host other than Windows or Linux is refused.
    pub fn plugin_file(&self, os: HostOs, plugin_name: &str) -> (r: Result<String, PsistatsError>)
        ensures
            os != HostOs::Other ==> (r matches Ok(p) && p@ == plugin_file_path(os, self.dir(), plugin_name@)),
            os == HostOs::Other ==> (r matches Err(PsistatsError::Runtime(m))
                && m@ == "Plugin loader does not support host OS"@),
    {
        match os {
            HostOs::Other => Err(PsistatsError::Runtime(String::from_str("Plugin loader does not support host OS"))),
            _ => Ok(build_plugin_path(os, self.plugin_dir.as_str(), plugin_name)),
        }
    }
}

} // verus!
