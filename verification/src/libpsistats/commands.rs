//! Commands that a plugin can ask psistats to carry out.
use vstd::prelude::*;

verus! {

/// List of available commands.
///
/// Currently only one command is supported, which is to trigger a report
/// by the plugin name.
#[derive(Debug)]
pub enum Commands {
    Report(String),
}

} // verus!
