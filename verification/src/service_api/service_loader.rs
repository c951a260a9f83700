//! Where the plugin service's loader looks for a plugin's library: it
//! loads plugins on Windows only.
use vstd::prelude::*;
use crate::host::{HostOs, plugin_file_path, build_plugin_path};

verus! {

#[derive(Debug, Clone)]
pub struct Error {
    msg: String,
}

impl Error {
    pub fn new(msg: String) -> (e: Self)
        ensures
            e.text() == msg@,
    {
        Error { msg }
    }

    pub closed spec fn text(&self) -> Seq<char> {
        self.msg@
    }

    /// The text that describes this error.
    pub fn message(&self) -> (m: String)
        ensures
            m@ == self.text(),
    {
        self.msg.clone()
    }
}

pub struct PluginLoader {
    plugin_dir: String,
}

impl PluginLoader {
    pub closed spec fn dir(&self) -> Seq<char> {
        self.plugin_dir@
    }

    pub fn new(plugin_dir: String) -> (l: Self)
        ensures
            l.dir() == plugin_dir@,
    {
        PluginLoader { plugin_dir }
    }

    /// The library file of the plugin `plugin_name`: on Windows only; any
    /// other host is refused.
    pub fn plugin_file(&self, os: HostOs, plugin_name: &str) -> (r: Result<String, Error>)
        ensures
            os == HostOs::Windows ==> (r matches Ok(p) && p@ == plugin_file_path(os, self.dir(), plugin_name@)),
            os != HostOs::Windows ==> (r matches Err(e) && e.text() == "Plugin loader does not support host OS"@),
    {
        match os {
            HostOs::Windows => Ok(build_plugin_path(os, self.plugin_dir.as_str(), plugin_name)),
            _ => Err(Error::new(String::from_str("Plugin loader does not support host OS"))),
        }
    }
}

} // verus!
