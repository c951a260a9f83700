//! The registrar that keeps each kind of service plugin function by name.
use vstd::prelude::*;
use std::sync::Arc;
use crate::table::NamedTable;
use crate::service_api::api::{
    FunctionType, PluginError, PluginRegistrar, PublisherFunction, PublisherInitFunction,
    ReporterFunction, ReporterInitFunction,
};

verus! {

/// One table of functions per kind, keyed by plugin name, and the plugin
/// libraries that provided them. Registering a function under a name makes
/// the name look up that function, replacing any earlier one, and leaves
/// every other name and every other kind as it was.
pub struct DefaultPluginRegistrar {
    reporter_init: NamedTable<Box<dyn ReporterInitFunction>>,
    reporter: NamedTable<Box<dyn ReporterFunction>>,
    publisher_init: NamedTable<Box<dyn PublisherInitFunction>>,
    publisher: NamedTable<Box<dyn PublisherFunction>>,
    libs: Vec<Arc<libloading::Library>>,
}

/// The error for a plugin `name` that registered no function of the kind
/// `fname`.
pub open spec fn not_found(e: PluginError, name: Seq<char>, fname: Seq<char>) -> bool {
    e matches PluginError::FunctionNotFound { p, fname: f } && p@ == name && f@ == fname
}

impl DefaultPluginRegistrar {
    pub closed spec fn reporter_inits(&self) -> NamedTable<Box<dyn ReporterInitFunction>> {
        self.reporter_init
    }

    pub closed spec fn reporters(&self) -> NamedTable<Box<dyn ReporterFunction>> {
        self.reporter
    }

    pub closed spec fn publisher_inits(&self) -> NamedTable<Box<dyn PublisherInitFunction>> {
        self.publisher_init
    }

    pub closed spec fn publishers(&self) -> NamedTable<Box<dyn PublisherFunction>> {
        self.publisher
    }

    pub closed spec fn libraries(&self) -> Seq<Arc<libloading::Library>> {
        self.libs@
    }

    /// A registrar with nothing registered.
    pub fn new() -> (r: DefaultPluginRegistrar)
        ensures
            r.reporter_inits().keys().len() == 0,
            r.reporters().keys().len() == 0,
            r.publisher_inits().keys().len() == 0,
            r.publishers().keys().len() == 0,
            r.libraries().len() == 0,
    {
        DefaultPluginRegistrar {
            reporter_init: NamedTable::new(),
            reporter: NamedTable::new(),
            publisher_init: NamedTable::new(),
            publisher: NamedTable::new(),
            libs: Vec::new(),
        }
    }
}

impl PluginRegistrar for DefaultPluginRegistrar {
    fn register_plugin(&mut self, name: &str, func: FunctionType)
        ensures
            final(self).libraries() == old(self).libraries(),
            match func {
                FunctionType::Publisher(f) => {
                    &&& final(self).publishers().lookup(name@) is Some
                    &&& final(self).publishers().lookup(name@)->Some_0 == f
                    &&& forall|n: Seq<char>| n != name@ ==> #[trigger] final(self).publishers().lookup(n) == old(self).publishers().lookup(n)
                    &&& final(self).publisher_inits() == old(self).publisher_inits()
                    &&& final(self).reporters() == old(self).reporters()
                    &&& final(self).reporter_inits() == old(self).reporter_inits()
                },
                FunctionType::PublisherInit(f) => {
                    &&& final(self).publisher_inits().lookup(name@) is Some
                    &&& final(self).publisher_inits().lookup(name@)->Some_0 == f
                    &&& forall|n: Seq<char>| n != name@ ==> #[trigger] final(self).publisher_inits().lookup(n) == old(self).publisher_inits().lookup(n)
                    &&& final(self).publishers() == old(self).publishers()
                    &&& final(self).reporters() == old(self).reporters()
                    &&& final(self).reporter_inits() == old(self).reporter_inits()
                },
                FunctionType::Reporter(f) => {
                    &&& final(self).reporters().lookup(name@) is Some
                    &&& final(self).reporters().lookup(name@)->Some_0 == f
                    &&& forall|n: Seq<char>| n != name@ ==> #[trigger] final(self).reporters().lookup(n) == old(self).reporters().lookup(n)
                    &&& final(self).publishers() == old(self).publishers()
                    &&& final(self).publisher_inits() == old(self).publisher_inits()
                    &&& final(self).reporter_inits() == old(self).reporter_inits()
                },
                FunctionType::ReporterInit(f) => {
                    &&& final(self).reporter_inits().lookup(name@) is Some
                    &&& final(self).reporter_inits().lookup(name@)->Some_0 == f
                    &&& forall|n: Seq<char>| n != name@ ==> #[trigger] final(self).reporter_inits().lookup(n) == old(self).reporter_inits().lookup(n)
                    &&& final(self).publishers() == old(self).publishers()
                    &&& final(self).publisher_inits() == old(self).publisher_inits()
                    &&& final(self).reporters() == old(self).reporters()
                },
            },
    {
        match func {
            FunctionType::Publisher(f) => {
                let entry = (String::from_str(name), f);
                self.publisher.insert_entry(entry);
            },
            FunctionType::PublisherInit(f) => {
                let entry = (String::from_str(name), f);
                self.publisher_init.insert_entry(entry);
            },
            FunctionType::Reporter(f) => {
                let entry = (String::from_str(name), f);
                self.reporter.insert_entry(entry);
            },
            FunctionType::ReporterInit(f) => {
                let entry = (String::from_str(name), f);
                self.reporter_init.insert_entry(entry);
            },
        }
    }

    fn register_lib(&mut self, lib: Arc<libloading::Library>)
        ensures
            final(self).libraries() == old(self).libraries().push(lib),
            final(self).publishers() == old(self).publishers(),
            final(self).publisher_inits() == old(self).publisher_inits(),
            final(self).reporters() == old(self).reporters(),
            final(self).reporter_inits() == old(self).reporter_inits(),
    {
        self.libs.push(lib);
    }

    fn get_reporter_init(&self, name: &str) -> (r: Result<&Box<dyn ReporterInitFunction>, PluginError>)
        ensures
            match r {
                Ok(f) => self.reporter_inits().lookup(name@) == Some(*f),
                Err(e) => self.reporter_inits().lookup(name@) is None && not_found(e, name@, "Reporter Init Function"@),
            },
    {
        match self.reporter_init.get(name) {
            Some(f) => Ok(f),
            None => Err(PluginError::FunctionNotFound { p: String::from_str(name), fname: String::from_str("Reporter Init Function") }),
        }
    }

    fn get_reporter(&self, name: &str) -> (r: Result<&Box<dyn ReporterFunction>, PluginError>)
        ensures
            match r {
                Ok(f) => self.reporters().lookup(name@) == Some(*f),
                Err(e) => self.reporters().lookup(name@) is None && not_found(e, name@, "Reporter Function"@),
            },
    {
        match self.reporter.get(name) {
            Some(f) => Ok(f),
            None => Err(PluginError::FunctionNotFound { p: String::from_str(name), fname: String::from_str("Reporter Function") }),
        }
    }

    fn get_publisher_init(&self, name: &str) -> (r: Result<&Box<dyn PublisherInitFunction>, PluginError>)
        ensures
            match r {
                Ok(f) => self.publisher_inits().lookup(name@) == Some(*f),
                Err(e) => self.publisher_inits().lookup(name@) is None && not_found(e, name@, "Publisher init function"@),
            },
    {
        match self.publisher_init.get(name) {
            Some(f) => Ok(f),
            None => Err(PluginError::FunctionNotFound { p: String::from_str(name), fname: String::from_str("Publisher init function") }),
        }
    }

    fn get_publisher(&self, name: &str) -> (r: Result<&Box<dyn PublisherFunction>, PluginError>)
        ensures
            match r {
                Ok(f) => self.publishers().lookup(name@) == Some(*f),
                Err(e) => self.publishers().lookup(name@) is None && not_found(e, name@, "Publisher function"@),
            },
    {
        match self.publisher.get(name) {
            Some(f) => Ok(f),
            None => Err(PluginError::FunctionNotFound { p: String::from_str(name), fname: String::from_str("Publisher function") }),
        }
    }
}

} // verus!
