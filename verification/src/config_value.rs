//! Plugin configuration values: the shape of a TOML value, as the
//! configuration file gives it to each plugin.
use vstd::prelude::*;
use crate::table::NamedTable;

verus! {

/// A configuration value. A float is held by its IEEE-754 bit pattern,
/// which the library only carries and compares.
pub enum ConfigValue {
    String(String),
    Integer(i64),
    Float(u64),
    Boolean(bool),
    Datetime(String),
    Array(Vec<ConfigValue>),
    Table(NamedTable<ConfigValue>),
}

/// A table of configuration values keyed by name.
pub type ConfigTable = NamedTable<ConfigValue>;

impl ConfigValue {
    /// The string, where the value is one.
    pub fn as_str(&self) -> (r: Option<&String>)
        ensures
            match *self {
                ConfigValue::String(s) => r == Some(&s),
                _ => r is None,
            },
    {
        match self {
            ConfigValue::String(s) => Some(s),
            _ => None,
        }
    }

    /// The boolean, where the value is one.
    pub fn as_bool(&self) -> (r: Option<bool>)
        ensures
            match *self {
                ConfigValue::Boolean(b) => r == Some(b),
                _ => r is None,
            },
    {
        match self {
            ConfigValue::Boolean(b) => Some(*b),
            _ => None,
        }
    }

    /// The integer, where the value is one.
    pub fn as_integer(&self) -> (r: Option<i64>)
        ensures
            match *self {
                ConfigValue::Integer(i) => r == Some(i),
                _ => r is None,
            },
    {
        match self {
            ConfigValue::Integer(i) => Some(*i),
            _ => None,
        }
    }

    /// The elements, where the value is an array.
    pub fn as_array(&self) -> (r: Option<&Vec<ConfigValue>>)
        ensures
            match *self {
                ConfigValue::Array(a) => r == Some(&a),
                _ => r is None,
            },
    {
        match self {
            ConfigValue::Array(a) => Some(a),
            _ => None,
        }
    }

    /// The table, where the value is one.
    pub fn as_table(&self) -> (r: Option<&ConfigTable>)
        ensures
            match *self {
                ConfigValue::Table(t) => r == Some(&t),
                _ => r is None,
            },
    {
        match self {
            ConfigValue::Table(t) => Some(t),
            _ => None,
        }
    }
}

} // verus!
