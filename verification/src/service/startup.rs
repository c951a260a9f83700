//! What the service decides when it starts: which plugins to load and the
//! calls of their init functions.
use vstd::prelude::*;
use crate::table::NamedTable;
use crate::libpsistats::config::PluginSettings;
use crate::libpsistats::errors::PsistatsError;
use crate::libpsistats::registrar::InitFunction;
use crate::service::config::{PsistatsConfiguration, has_plugin};
use crate::service::workers::all_configured;
use crate::schedule::string_views;

verus! {

/// The names of the enabled plugin entries, in order.
pub open spec fn enabled_names(plugins: Seq<PluginSettings>) -> Seq<Seq<char>>
    decreases plugins.len(),
{
    if plugins.len() == 0 {
        Seq::empty()
    } else {
        let rest = enabled_names(plugins.drop_last());
        if plugins.last().enabled() {
            rest.push(plugins.last().plugin_name()@)
        } else {
            rest
        }
    }
}

/// The plugins to load: the names of the enabled entries, in order.
pub fn plugins_to_load(plugins: &Vec<PluginSettings>) -> (r: Vec<String>)
    ensures
        string_views(r@) == enabled_names(plugins@),
{
    let mut r: Vec<String> = Vec::new();
    let mut i: usize = 0;
    while i < plugins.len()
        invariant
            i <= plugins@.len(),
            string_views(r@) == enabled_names(plugins@.take(i as int)),
        decreases plugins.len() - i,
    {
        let p = &plugins[i];
        assert(plugins@.take(i + 1).drop_last() =~= plugins@.take(i as int));
        assert(plugins@.take(i + 1).last() == plugins@[i as int]);
        if p.is_enabled() {
            let ghost prev = r@;
            let name = String::from_str(p.get_name());
            assert(name@ == p.plugin_name()@);
            r.push(name);
            assert(string_views(r@) =~= string_views(prev).push(name@));
        }
        i = i + 1;
    }
    assert(plugins@.take(i as int) =~= plugins@);
    r
}

/// Calls the init function of every plugin, in order, with the host name
/// and the plugin's settings; stops at the first that fails and gives its
/// error. With no init function there is nothing to fail.
pub fn run_init_fns(
    init_fns: &NamedTable<Box<dyn InitFunction>>,
    config: &PsistatsConfiguration,
    hostname: &str,
) -> (r: Result<(), PsistatsError>)
    requires
        all_configured(init_fns.keys(), config.plugin@),
    ensures
        init_fns.keys().len() == 0 ==> r is Ok,
{
    let n = init_fns.len();
    let mut i: usize = 0;
    while i < n
        invariant
            n == init_fns.keys().len(),
            all_configured(init_fns.keys(), config.plugin@),
            i <= n,
        decreases n - i,
    {
        let (name, init_fn) = init_fns.entry(i);
        assert(has_plugin(config.plugin@, init_fns.keys()[i as int]));
        let settings = config.get_plugin_config(name.as_str()).unwrap();
        init_fn.call(hostname, settings)?;
        i = i + 1;
    }
    Ok(())
}

} // verus!
