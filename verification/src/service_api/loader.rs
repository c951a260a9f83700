//! Where the service's plugin loader looks for a plugin's library, on
//! Windows and Linux.
use vstd::prelude::*;
use crate::host::{HostOs, plugin_file_path, build_plugin_path};

verus! {

#[derive(Debug, Clone)]
pub enum Error {
    DeclError(String),
    LibError(String),
    Other(String),
}

impl Error {
    /// The text that describes this error: its message.
    pub fn message(&self) -> (m: String)
        ensures
            m@ == match *self {
                Error::DeclError(s) => s@,
                Error::LibError(s) => s@,
                Error::Other(s) => s@,
            },
    {
        match self {
            Error::DeclError(msg) => msg.clone(),
            Error::LibError(msg) => msg.clone(),
            Error::Other(msg) => msg.clone(),
        }
    }
}

pub struct PluginLoader {
    plugin_dir: String,
}

impl PluginLoader {
    pub closed spec fn dir(&self) -> Seq<char> {
        self.plugin_dir@
    }

    pub fn new(plugin_dir: String) -> (l: Self)
        ensures
            l.dir() == plugin_dir@,
    {
        PluginLoader { plugin_dir }
    }

    /// The library file of the plugin `plugin_name` on the host `os`; a
    /// host other than Windows or Linux is refused.
    pub fn plugin_file(&self, os: HostOs, plugin_name: &str) -> (r: Result<String, Error>)
        ensures
            os != HostOs::Other ==> (r matches Ok(p) && p@ == plugin_file_path(os, self.dir(), plugin_name@)),
            os == HostOs::Other ==> (r matches Err(Error::Other(m)) && m@ == "Plugin loader does not support host OS"@),
    {
        match os {
            HostOs::Other => Err(Error::Other(String::from_str("Plugin loader does not support host OS"))),
            _ => Ok(build_plugin_path(os, self.plugin_dir.as_str(), plugin_name)),
        }
    }
}

} // verus!
