//! The service configuration: general settings and one entry per reporter
//! and per publisher plugin.
use vstd::prelude::*;
use crate::config_value::ConfigTable;

verus! {

pub struct Settings {
    pub hostname: String,
    pub workers: u16,
    pub timer: u32,
}

/// The configuration entry of a reporter plugin.
pub struct ReporterConfig {
    name: String,
    enabled: bool,
    interval: u32,
    config: ConfigTable,
}

impl ReporterConfig {
    pub fn new(name: String, enabled: bool, interval: u32, config: ConfigTable) -> (c: Self)
        ensures
            c.name() == name@,
            c.enabled() == enabled,
            c.interval() == interval,
            c.config() == config,
    {
        ReporterConfig { name, enabled, interval, config }
    }

    pub closed spec fn name(&self) -> Seq<char> {
        self.name@
    }

    pub closed spec fn enabled(&self) -> bool {
        self.enabled
    }

    pub closed spec fn interval(&self) -> u32 {
        self.interval
    }

    pub closed spec fn config(&self) -> ConfigTable {
        self.config
    }

    pub fn get_name(&self) -> (n: &str)
        ensures
            n@ == self.name(),
    {
        self.name.as_str()
    }

    pub fn is_enabled(&self) -> (b: bool)
        ensures
            b == self.enabled(),
    {
        self.enabled
    }

    pub fn get_config(&self) -> (c: &ConfigTable)
        ensures
            *c == self.config(),
    {
        &self.config
    }

    pub fn get_interval(&self) -> (i: u32)
        ensures
            i == self.interval(),
    {
        self.interval
    }
}

/// The configuration entry of a publisher plugin.
pub struct PublisherConfig {
    name: String,
    enabled: bool,
    config: ConfigTable,
}

impl PublisherConfig {
    pub fn new(name: String, enabled: bool, config: ConfigTable) -> (c: Self)
        ensures
            c.name() == name@,
            c.enabled() == enabled,
            c.config() == config,
    {
        PublisherConfig { name, enabled, config }
    }

    pub closed spec fn name(&self) -> Seq<char> {
        self.name@
    }

    pub closed spec fn enabled(&self) -> bool {
        self.enabled
    }

    pub closed spec fn config(&self) -> ConfigTable {
        self.config
    }

    pub fn get_name(&self) -> (n: &str)
        ensures
            n@ == self.name(),
    {
        self.name.as_str()
    }

    pub fn is_enabled(&self) -> (b: bool)
        ensures
            b == self.enabled(),
    {
        self.enabled
    }

    pub fn get_config(&self) -> (c: &ConfigTable)
        ensures
            *c == self.config(),
    {
        &self.config
    }
}

pub struct ServiceConfig {
    pub settings: Settings,
    pub r_plugin: Vec<ReporterConfig>,
    pub p_plugin: Vec<PublisherConfig>,
}

/// Whether `i` is the first reporter entry named `name`.
pub open spec fn is_first_reporter(rs: Seq<ReporterConfig>, name: Seq<char>, i: int) -> bool {
    &&& 0 <= i < rs.len()
    &&& rs[i].name() == name
    &&& forall|j: int| 0 <= j < i ==> (#[trigger] rs[j]).name() != name
}

/// Whether `i` is the first publisher entry named `name`.
pub open spec fn is_first_publisher(ps: Seq<PublisherConfig>, name: Seq<char>, i: int) -> bool {
    &&& 0 <= i < ps.len()
    &&& ps[i].name() == name
    &&& forall|j: int| 0 <= j < i ==> (#[trigger] ps[j]).name() != name
}

impl ServiceConfig {
    /// The first publisher entry named `name`.
    pub fn get_publisher_config(&self, name: String) -> (r: Option<&PublisherConfig>)
        ensures
            match r {
                Some(c) => exists|i: int| is_first_publisher(self.p_plugin@, name@, i) && *c == self.p_plugin@[i],
                None => forall|i: int| 0 <= i < self.p_plugin@.len() ==> (#[trigger] self.p_plugin@[i]).name() != name@,
            },
    {
        let mut i: usize = 0;
        while i < self.p_plugin.len()
            invariant
                i <= self.p_plugin@.len(),
                forall|j: int| 0 <= j < i ==> (#[trigger] self.p_plugin@[j]).name() != name@,
            decreases self.p_plugin.len() - i,
        {
            let c = &self.p_plugin[i];
            if crate::text::str_eq(c.get_name(), name.as_str()) {
                assert(is_first_publisher(self.p_plugin@, name@, i as int));
                return Some(c);
            }
            i = i + 1;
        }
        None
    }

    /// The first reporter entry named `name`.
    pub fn get_reporter_config(&self, name: String) -> (r: Option<&ReporterConfig>)
        ensures
            match r {
                Some(c) => exists|i: int| is_first_reporter(self.r_plugin@, name@, i) && *c == self.r_plugin@[i],
                None => forall|i: int| 0 <= i < self.r_plugin@.len() ==> (#[trigger] self.r_plugin@[i]).name() != name@,
            },
    {
        let mut i: usize = 0;
        while i < self.r_plugin.len()
            invariant
                i <= self.r_plugin@.len(),
                forall|j: int| 0 <= j < i ==> (#[trigger] self.r_plugin@[j]).name() != name@,
            decreases self.r_plugin.len() - i,
        {
            let c = &self.r_plugin[i];
            if crate::text::str_eq(c.get_name(), name.as_str()) {
                assert(is_first_reporter(self.r_plugin@, name@, i as int));
                return Some(c);
            }
            i = i + 1;
        }
        None
    }

    pub fn get_reporter_configs(&self) -> (r: &Vec<ReporterConfig>)
        ensures
            r@ == self.r_plugin@,
    {
        &self.r_plugin
    }

    pub fn get_publisher_configs(&self) -> (r: &Vec<PublisherConfig>)
        ensures
            r@ == self.p_plugin@,
    {
        &self.p_plugin
    }
}

} // verus!
