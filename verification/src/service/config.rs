//! The service configuration file.
use vstd::prelude::*;
use crate::libpsistats::config::PluginSettings;

verus! {

/// The whole configuration: general settings, advanced settings and one
/// entry per plugin.
pub struct PsistatsConfiguration {
    pub settings: Settings,
    pub advanced: Advanced,
    pub plugin: Vec<PluginSettings>,
}

pub struct Settings {
    pub hostname: String,
    pub loglevel: String,
}

pub struct Advanced {
    pub min_interval: u64,
    pub r_workers: u32,
    pub p_workers: u32,
}

/// Whether some plugin entry is named `name`.
pub open spec fn has_plugin(plugins: Seq<PluginSettings>, name: Seq<char>) -> bool {
    exists|i: int| 0 <= i < plugins.len() && (#[trigger] plugins[i]).plugin_name()@ == name
}

/// Whether `i` is the first plugin entry named `name`.
pub open spec fn is_first_plugin(plugins: Seq<PluginSettings>, name: Seq<char>, i: int) -> bool {
    &&& 0 <= i < plugins.len()
    &&& plugins[i].plugin_name()@ == name
    &&& forall|j: int| 0 <= j < i ==> (#[trigger] plugins[j]).plugin_name()@ != name
}

/// The position of the first plugin entry named `name`.
pub open spec fn first_plugin(plugins: Seq<PluginSettings>, name: Seq<char>) -> int {
    choose|i: int| is_first_plugin(plugins, name, i)
}

/// The settings of the first plugin entry named `name`.
pub open spec fn plugin_settings(plugins: Seq<PluginSettings>, name: Seq<char>) -> PluginSettings {
    plugins[first_plugin(plugins, name)]
}

/// The scheduling interval of the plugin `name`.
pub open spec fn plugin_interval(plugins: Seq<PluginSettings>, name: Seq<char>) -> u64 {
    plugin_settings(plugins, name).interval_secs()
}

/// First-match law: where entry `i` is the first plugin entry named
/// `name`, the settings of `name` are those of entry `i`.
pub proof fn lemma_first_plugin(plugins: Seq<PluginSettings>, name: Seq<char>, i: int)
    requires
        is_first_plugin(plugins, name, i),
    ensures
        first_plugin(plugins, name) == i,
        has_plugin(plugins, name),
{
    let k = first_plugin(plugins, name);
    assert(is_first_plugin(plugins, name, k));
    if k < i {
        assert(plugins[k].plugin_name()@ != name);
    }
    if i < k {
        assert(plugins[i].plugin_name()@ != name);
    }
}

impl PsistatsConfiguration {
    /// The settings of the first plugin entry named `plugin_name`.
    pub fn get_plugin_config(&self, plugin_name: &str) -> (r: Option<&PluginSettings>)
        ensures
            match r {
                Some(p) => has_plugin(self.plugin@, plugin_name@) && *p == plugin_settings(
                    self.plugin@,
                    plugin_name@,
                ),
                None => !has_plugin(self.plugin@, plugin_name@),
            },
    {
        let mut i: usize = 0;
        while i < self.plugin.len()
            invariant
                i <= self.plugin@.len(),
                forall|j: int| 0 <= j < i ==> (#[trigger] self.plugin@[j]).plugin_name()@ != plugin_name@,
            decreases self.plugin.len() - i,
        {
            let p = &self.plugin[i];
            if crate::text::str_eq(p.get_name(), plugin_name) {
                proof {
                    lemma_first_plugin(self.plugin@, plugin_name@, i as int);
                }
                return Some(p);
            }
            i = i + 1;
        }
        None
    }
}

} // verus!
