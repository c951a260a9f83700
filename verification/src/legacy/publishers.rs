//! The built-in publishers and commanders.
use vstd::prelude::*;
use crate::text::str_eq;

verus! {

/// The built-in publishers.
#[derive(Debug, Clone, Copy, PartialEq, Eq, Structural)]
pub enum PublisherKind {
    Mqtt,
    Log,
}

/// The built-in commanders, which receive commands for the reporters.
#[derive(Debug, Clone, Copy, PartialEq, Eq, Structural)]
pub enum CommanderKind {
    Mqtt,
}

pub open spec fn spec_get_publisher(pname: Seq<char>) -> Option<PublisherKind> {
    if pname == "mqtt"@ {
        Some(PublisherKind::Mqtt)
    } else if pname == "log"@ {
        Some(PublisherKind::Log)
    } else {
        None
    }
}

pub open spec fn spec_get_commander(pname: Seq<char>) -> Option<CommanderKind> {
    if pname == "mqtt"@ {
        Some(CommanderKind::Mqtt)
    } else {
        None
    }
}

/// The built-in commander named `pname`, if there is one.
pub fn get_commander(pname: String) -> (r: Option<CommanderKind>)
    ensures
        r == spec_get_commander(pname@),
{
    if str_eq(pname.as_str(), "mqtt") {
        Some(CommanderKind::Mqtt)
    } else {
        None
    }
}

/// The built-in publisher named `pname`, if there is one.
pub fn get_publisher(pname: String) -> (r: Option<PublisherKind>)
    ensures
        r == spec_get_publisher(pname@),
{
    if str_eq(pname.as_str(), "mqtt") {
        Some(PublisherKind::Mqtt)
    } else if str_eq(pname.as_str(), "log") {
        Some(PublisherKind::Log)
    } else {
        None
    }
}

} // verus!
