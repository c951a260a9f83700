//! A smaller registrar: init and report functions by plugin name, with
//! lookups that explain a miss in words.
use vstd::prelude::*;
use std::rc::Rc;
use crate::table::NamedTable;
use crate::service_api::api::{PublisherFunction, ReporterFunction, ReporterInitFunction};

verus! {

pub struct DefaultPluginRegistrar {
    init_fn: NamedTable<Box<dyn ReporterInitFunction>>,
    report_fn: NamedTable<Box<dyn ReporterFunction>>,
    publish_fn: NamedTable<Box<dyn PublisherFunction>>,
    libs: Vec<Rc<libloading::Library>>,
}

impl DefaultPluginRegistrar {
    pub closed spec fn init_fns(&self) -> NamedTable<Box<dyn ReporterInitFunction>> {
        self.init_fn
    }

    pub closed spec fn report_fns(&self) -> NamedTable<Box<dyn ReporterFunction>> {
        self.report_fn
    }

    pub closed spec fn publish_fns(&self) -> NamedTable<Box<dyn PublisherFunction>> {
        self.publish_fn
    }

    pub closed spec fn libraries(&self) -> Seq<Rc<libloading::Library>> {
        self.libs@
    }

    /// A registrar with nothing registered.
    pub fn new() -> (r: DefaultPluginRegistrar)
        ensures
            r.init_fns().keys().len() == 0,
            r.report_fns().keys().len() == 0,
            r.publish_fns().keys().len() == 0,
            r.libraries().len() == 0,
    {
        DefaultPluginRegistrar {
            init_fn: NamedTable::new(),
            report_fn: NamedTable::new(),
            publish_fn: NamedTable::new(),
            libs: Vec::new(),
        }
    }

    pub fn register_init_fn(&mut self, name: &str, func: Box<dyn ReporterInitFunction>)
        ensures
            final(self).init_fns().lookup(name@) is Some,
            final(self).init_fns().lookup(name@)->Some_0 == func,
            forall|n: Seq<char>| n != name@ ==> #[trigger] final(self).init_fns().lookup(n) == old(self).init_fns().lookup(n),
            final(self).report_fns() == old(self).report_fns(),
            final(self).publish_fns() == old(self).publish_fns(),
            final(self).libraries() == old(self).libraries(),
    {
        let entry = (String::from_str(name), func);
        self.init_fn.insert_entry(entry);
    }

    pub fn register_report_fn(&mut self, name: &str, func: Box<dyn ReporterFunction>)
        ensures
            final(self).report_fns().lookup(name@) is Some,
            final(self).report_fns().lookup(name@)->Some_0 == func,
            forall|n: Seq<char>| n != name@ ==> #[trigger] final(self).report_fns().lookup(n) == old(self).report_fns().lookup(n),
            final(self).init_fns() == old(self).init_fns(),
            final(self).publish_fns() == old(self).publish_fns(),
            final(self).libraries() == old(self).libraries(),
    {
        let entry = (String::from_str(name), func);
        self.report_fn.insert_entry(entry);
    }

    pub fn register_lib(&mut self, lib: Rc<libloading::Library>)
        ensures
            final(self).libraries() == old(self).libraries().push(lib),
            final(self).init_fns() == old(self).init_fns(),
            final(self).report_fns() == old(self).report_fns(),
            final(self).publish_fns() == old(self).publish_fns(),
    {
        self.libs.push(lib);
    }

    pub fn get_init_fn(&self, name: &str) -> (r: Result<&Box<dyn ReporterInitFunction>, String>)
        ensures
            match r {
                Ok(f) => self.init_fns().lookup(name@) == Some(*f),
                Err(m) => self.init_fns().lookup(name@) is None && m@ == "Init function '"@ + name@ + "' not found"@,
            },
    {
        match self.init_fn.get(name) {
            Some(f) => Ok(f),
            None => Err(String::from_str("Init function '").concat(name).concat("' not found")),
        }
    }

    pub fn get_report_fn(&self, name: &str) -> (r: Result<&Box<dyn ReporterFunction>, String>)
        ensures
            match r {
                Ok(f) => self.report_fns().lookup(name@) == Some(*f),
                Err(m) => self.report_fns().lookup(name@) is None && m@ == "Report function '"@ + name@ + "' not found"@,
            },
    {
        match self.report_fn.get(name) {
            Some(f) => Ok(f),
            None => Err(String::from_str("Report function '").concat(name).concat("' not found")),
        }
    }
}

} // verus!
