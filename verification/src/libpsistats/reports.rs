//! Values that reporter functions produce, and the reports that carry them
//! to publishers.
use vstd::prelude::*;
use crate::table::NamedTable;

verus! {

/// Report Value
///
/// Reporter functions should generate a ReportValue using one of the five
/// base types. A float is held by its IEEE-754 bit pattern, which the
/// library only carries.
#[derive(Debug)]
pub enum ReportValue {
    Integer(u64),
    Float(u64),
    String(String),
    Array(Vec<ReportValue>),
    Object(NamedTable<ReportValue>),
}

/// The report generated from the value that a reporter produced, with the
/// reporter's name and the host's name.
#[derive(Debug)]
pub struct PsistatsReport {
    pub reporter: String,
    pub hostname: String,
    pub value: ReportValue,
}

impl PsistatsReport {
    pub fn new(reporter: &str, hostname: &str, value: ReportValue) -> (r: Self)
        ensures
            r.reporter@ == reporter@,
            r.hostname@ == hostname@,
            r.value == value,
    {
        PsistatsReport {
            reporter: String::from_str(reporter),
            hostname: String::from_str(hostname),
            value: value,
        }
    }
}

} // verus!
