//! The operating systems that the plugin loaders tell apart.
use vstd::prelude::*;

verus! {

/// The host operating system, as the program was built for it.
#[derive(Debug, Clone, Copy, PartialEq, Eq, Structural)]
pub enum HostOs {
    Windows,
    Linux,
    Other,
}

/// The file that holds the plugin `name` in the directory `dir`:
/// `dir\plugin_name.dll` on Windows, `dir/libplugin_name.so` on Linux.
pub open spec fn plugin_file_path(os: HostOs, dir: Seq<char>, name: Seq<char>) -> Seq<char> {
    match os {
        HostOs::Windows => dir + "\\plugin_"@ + name + ".dll"@,
        _ => dir + "/libplugin_"@ + name + ".so"@,
    }
}

/// Builds the plugin file path of [`plugin_file_path`] for Windows or Linux.
pub fn build_plugin_path(os: HostOs, dir: &str, name: &str) -> (p: String)
    requires
        os != HostOs::Other,
    ensures
        p@ == plugin_file_path(os, dir@, name@),
{
    match os {
        HostOs::Windows => String::from_str(dir).concat("\\plugin_").concat(name).concat(".dll"),
        _ => String::from_str(dir).concat("/libplugin_").concat(name).concat(".so"),
    }
}

} // verus!
