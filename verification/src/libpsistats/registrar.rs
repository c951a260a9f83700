//! The functions a plugin can provide, and the registrar that plugins
//! register them into.
use vstd::prelude::*;
use std::sync::Arc;
use crate::table::NamedTable;
use crate::libpsistats::commands::Commands;
use crate::libpsistats::config::PluginSettings;
use crate::libpsistats::errors::PsistatsError;
use crate::libpsistats::reports::{PsistatsReport, ReportValue};

verus! {

/// A loaded plugin library. The registrar keeps a reference to each one so
/// that the functions it registered stay available.
#[verifier::external_type_specification]
#[verifier::external_body]
pub struct ExLibrary(libloading::Library);

/// An init function is called when psistats is first loaded. Init functions
/// can do things like start additional threads or set some initial state.
pub trait InitFunction: Send + Sync {
    fn call(&self, hostname: &str, settings: &PluginSettings) -> Result<(), PsistatsError>;
}

/// A command function is polled regularly. It returns a command to trigger
/// on psistats; currently it can only request a report.
pub trait CommandFunction: Send + Sync {
    fn call(&self, hostname: &str, settings: &PluginSettings) -> Option<Commands>;
}

/// Reporter functions generate [`ReportValue`]s. They are usually called
/// at configured intervals, though can be configured to idle until manually
/// triggered.
pub trait ReporterFunction: Send + Sync {
    fn call(&self, settings: &PluginSettings) -> Result<ReportValue, PsistatsError>;
}

/// Publisher functions are called for every report that is generated.
pub trait PublisherFunction: Send + Sync {
    fn call(&self, report: &PsistatsReport, settings: &PluginSettings) -> Result<(), PsistatsError>;
}

/// A plugin registrar is used to register plugins.
///
/// For most situations, [`DefaultPluginRegistrar`] should be a good enough
/// implementation.
pub trait PluginRegistrar: Send + Sync {
    /// Register an initialization function
    fn register_init_fn(&mut self, name: &str, func: Box<dyn InitFunction>);

    /// Register a reporter function
    fn register_reporter_fn(&mut self, name: &str, func: Box<dyn ReporterFunction>);

    /// Register a publisher function
    fn register_publisher_fn(&mut self, name: &str, func: Box<dyn PublisherFunction>);

    /// Register a command function
    fn register_command_fn(&mut self, name: &str, func: Box<dyn CommandFunction>);

    /// Register a plugin library. It's necessary to keep a reference
    /// of the plugin library active.
    fn register_lib(&mut self, lib: Arc<libloading::Library>);

    /// Get the plugin init function
    fn get_init_fn(&self, name: &str) -> Option<&Box<dyn InitFunction>>;

    /// Get a reporter function
    fn get_reporter_fn(&self, name: &str) -> Option<&Box<dyn ReporterFunction>>;

    /// Get a publisher function
    fn get_publisher_fn(&self, name: &str) -> Option<&Box<dyn PublisherFunction>>;

    /// Get all initialization functions
    fn get_init_fns(&self) -> &NamedTable<Box<dyn InitFunction>>;

    /// Get all reporter functions
    fn get_reporter_fns(&self) -> &NamedTable<Box<dyn ReporterFunction>>;

    /// Get all publisher functions
    fn get_publisher_fns(&self) -> &NamedTable<Box<dyn PublisherFunction>>;

    /// Get all command functions
    fn get_command_fns(&self) -> &NamedTable<Box<dyn CommandFunction>>;
}

/// The registrar that psistats uses: one table of functions per kind,
/// keyed by plugin name, and the plugin libraries that provided them.
/// Registering a function under a name makes the name look up that
/// function, replacing any earlier one, and leaves every other name and
/// every other kind as it was.
pub struct DefaultPluginRegistrar {
    init_fns: NamedTable<Box<dyn InitFunction>>,
    reporter_fns: NamedTable<Box<dyn ReporterFunction>>,
    publisher_fns: NamedTable<Box<dyn PublisherFunction>>,
    command_fns: NamedTable<Box<dyn CommandFunction>>,
    libs: Vec<Arc<libloading::Library>>,
}

impl DefaultPluginRegistrar {
    pub closed spec fn init_table(&self) -> NamedTable<Box<dyn InitFunction>> {
        self.init_fns
    }

    pub closed spec fn reporter_table(&self) -> NamedTable<Box<dyn ReporterFunction>> {
        self.reporter_fns
    }

    pub closed spec fn publisher_table(&self) -> NamedTable<Box<dyn PublisherFunction>> {
        self.publisher_fns
    }

    pub closed spec fn command_table(&self) -> NamedTable<Box<dyn CommandFunction>> {
        self.command_fns
    }

    pub closed spec fn libraries(&self) -> Seq<Arc<libloading::Library>> {
        self.libs@
    }

    /// A registrar with nothing registered.
    pub fn new() -> (r: DefaultPluginRegistrar)
        ensures
            r.init_table().keys().len() == 0,
            r.reporter_table().keys().len() == 0,
            r.publisher_table().keys().len() == 0,
            r.command_table().keys().len() == 0,
            r.libraries().len() == 0,
    {
        DefaultPluginRegistrar {
            init_fns: NamedTable::new(),
            reporter_fns: NamedTable::new(),
            publisher_fns: NamedTable::new(),
            command_fns: NamedTable::new(),
            libs: Vec::new(),
        }
    }
}

impl PluginRegistrar for DefaultPluginRegistrar {
    fn register_init_fn(&mut self, name: &str, func: Box<dyn InitFunction>)
        ensures
            final(self).init_table().lookup(name@) is Some,
            final(self).init_table().lookup(name@)->Some_0 == func,
            forall|n: Seq<char>| n != name@ ==> #[trigger] final(self).init_table().lookup(n)
                == old(self).init_table().lookup(n),
            final(self).reporter_table() == old(self).reporter_table(),
            final(self).publisher_table() == old(self).publisher_table(),
            final(self).command_table() == old(self).command_table(),
            final(self).libraries() == old(self).libraries(),
    {
        let entry = (String::from_str(name), func);
        self.init_fns.insert_entry(entry);
    }

    fn register_reporter_fn(&mut self, name: &str, func: Box<dyn ReporterFunction>)
        ensures
            final(self).reporter_table().lookup(name@) is Some,
            final(self).reporter_table().lookup(name@)->Some_0 == func,
            forall|n: Seq<char>| n != name@ ==> #[trigger] final(self).reporter_table().lookup(n)
                == old(self).reporter_table().lookup(n),
            final(self).init_table() == old(self).init_table(),
            final(self).publisher_table() == old(self).publisher_table(),
            final(self).command_table() == old(self).command_table(),
            final(self).libraries() == old(self).libraries(),
    {
        let entry = (String::from_str(name), func);
        self.reporter_fns.insert_entry(entry);
    }

    fn register_publisher_fn(&mut self, name: &str, func: Box<dyn PublisherFunction>)
        ensures
            final(self).publisher_table().lookup(name@) is Some,
            final(self).publisher_table().lookup(name@)->Some_0 == func,
            forall|n: Seq<char>| n != name@ ==> #[trigger] final(self).publisher_table().lookup(n)
                == old(self).publisher_table().lookup(n),
            final(self).init_table() == old(self).init_table(),
            final(self).reporter_table() == old(self).reporter_table(),
            final(self).command_table() == old(self).command_table(),
            final(self).libraries() == old(self).libraries(),
    {
        let entry = (String::from_str(name), func);
        self.publisher_fns.insert_entry(entry);
    }

    fn register_command_fn(&mut self, name: &str, func: Box<dyn CommandFunction>)
        ensures
            final(self).command_table().lookup(name@) is Some,
            final(self).command_table().lookup(name@)->Some_0 == func,
            forall|n: Seq<char>| n != name@ ==> #[trigger] final(self).command_table().lookup(n)
                == old(self).command_table().lookup(n),
            final(self).init_table() == old(self).init_table(),
            final(self).reporter_table() == old(self).reporter_table(),
            final(self).publisher_table() == old(self).publisher_table(),
            final(self).libraries() == old(self).libraries(),
    {
        let entry = (String::from_str(name), func);
        self.command_fns.insert_entry(entry);
    }

    fn register_lib(&mut self, lib: Arc<libloading::Library>)
        ensures
            final(self).libraries() == old(self).libraries().push(lib),
            final(self).init_table() == old(self).init_table(),
            final(self).reporter_table() == old(self).reporter_table(),
            final(self).publisher_table() == old(self).publisher_table(),
            final(self).command_table() == old(self).command_table(),
    {
        self.libs.push(lib);
    }

    fn get_init_fn(&self, name: &str) -> (r: Option<&Box<dyn InitFunction>>)
        ensures
            match r {
                Some(f) => self.init_table().lookup(name@) == Some(*f),
                None => self.init_table().lookup(name@) is None,
            },
    {
        self.init_fns.get(name)
    }

    fn get_reporter_fn(&self, name: &str) -> (r: Option<&Box<dyn ReporterFunction>>)
        ensures
            match r {
                Some(f) => self.reporter_table().lookup(name@) == Some(*f),
                None => self.reporter_table().lookup(name@) is None,
            },
    {
        self.reporter_fns.get(name)
    }

    fn get_publisher_fn(&self, name: &str) -> (r: Option<&Box<dyn PublisherFunction>>)
        ensures
            match r {
                Some(f) => self.publisher_table().lookup(name@) == Some(*f),
                None => self.publisher_table().lookup(name@) is None,
            },
    {
        self.publisher_fns.get(name)
    }

    fn get_init_fns(&self) -> (t: &NamedTable<Box<dyn InitFunction>>)
        ensures
            *t == self.init_table(),
    {
        &self.init_fns
    }

    fn get_reporter_fns(&self) -> (t: &NamedTable<Box<dyn ReporterFunction>>)
        ensures
            *t == self.reporter_table(),
    {
        &self.reporter_fns
    }

    fn get_publisher_fns(&self) -> (t: &NamedTable<Box<dyn PublisherFunction>>)
        ensures
            *t == self.publisher_table(),
    {
        &self.publisher_fns
    }

    fn get_command_fns(&self) -> (t: &NamedTable<Box<dyn CommandFunction>>)
        ensures
            *t == self.command_table(),
    {
        &self.command_fns
    }
}

} // verus!
