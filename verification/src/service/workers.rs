//! The service's workers. Each holds what it decides on; the service loop
//! hands it what arrived (a request, a report, the time elapsed) and does
//! what it answers (send a report, send requests).
use vstd::prelude::*;
use crate::table::NamedTable;
use crate::libpsistats::commands::Commands;
use crate::libpsistats::config::PluginSettings;
use crate::libpsistats::errors::PsistatsError;
use crate::libpsistats::reports::PsistatsReport;
use crate::libpsistats::registrar::{CommandFunction, PublisherFunction, ReporterFunction};
use crate::service::config::{PsistatsConfiguration, has_plugin, plugin_interval};
use crate::schedule::{IntervalGroup, schedule_of, groups_names, due_names, divides_due, lemma_due_exactly, group_by_interval, due_in};
use crate::schedule::string_views;

verus! {

/// Whether every name in `keys` has a plugin entry.
pub open spec fn all_configured(keys: Seq<Seq<char>>, plugins: Seq<PluginSettings>) -> bool {
    forall|i: int| 0 <= i < keys.len() ==> has_plugin(plugins, #[trigger] keys[i])
}

/// Whether a reporter with interval `interval` is due `elapsed` seconds
/// after the start: intervals of 0 are never due, and nothing is due at 0.
pub open spec fn is_due(interval: u64, elapsed: u64) -> bool {
    elapsed > 0 && interval > 0 && elapsed % interval == 0
}

/// The interval of the plugin of each name.
pub open spec fn key_intervals(keys: Seq<Seq<char>>, plugins: Seq<PluginSettings>) -> Seq<u64> {
    keys.map_values(|k: Seq<char>| plugin_interval(plugins, k))
}

/// The names the worker requests `elapsed` seconds after the start.
pub open spec fn requests_at(sched: Seq<(u64, Seq<Seq<char>>)>, elapsed: u64) -> Seq<Seq<char>> {
    if elapsed > 0 {
        due_names(sched, elapsed)
    } else {
        Seq::empty()
    }
}

/// This worker requests reports based on their configured intervals.
pub struct ScheduleWorker {
    intervals: Vec<IntervalGroup>,
}

/// Schedule law: once the worker has grouped the reporters by interval, a
/// reporter is requested `elapsed` seconds after the start exactly when it
/// is one of the reporters and its interval is due then. A reporter whose
/// interval is unset or 0 is never requested.
pub proof fn lemma_schedule_requests(
    keys: Seq<Seq<char>>,
    plugins: Seq<PluginSettings>,
    sched: Seq<(u64, Seq<Seq<char>>)>,
    elapsed: u64,
    k: Seq<char>,
)
    requires
        groups_names(keys, key_intervals(keys, plugins), sched),
    ensures
        requests_at(sched, elapsed).contains(k) <==> (keys.contains(k) && is_due(plugin_interval(plugins, k), elapsed)),
{
    let ivs = key_intervals(keys, plugins);
    lemma_due_exactly(keys, ivs, sched, elapsed, k);
    if elapsed == 0 {
        assert(!Seq::<Seq<char>>::empty().contains(k));
    }
    if requests_at(sched, elapsed).contains(k) {
        let i = choose|i: int| 0 <= i < keys.len() && keys[i] == k && divides_due(#[trigger] ivs[i], elapsed);
        assert(keys.contains(k));
    }
    if keys.contains(k) && is_due(plugin_interval(plugins, k), elapsed) {
        let i = choose|i: int| 0 <= i < keys.len() && keys[i] == k;
        assert(ivs[i] == plugin_interval(plugins, k));
        assert(divides_due(ivs[i], elapsed));
    }
}

impl ScheduleWorker {
    /// The groups: each interval with the names of its reporters.
    pub closed spec fn schedule(&self) -> Seq<(u64, Seq<Seq<char>>)> {
        schedule_of(self.intervals@)
    }

    /// Groups the reporters `reporter_fns` by the interval configured for
    /// them.
    pub fn init(reporter_fns: &NamedTable<Box<dyn ReporterFunction>>, config: &PsistatsConfiguration) -> (w: ScheduleWorker)
        requires
            all_configured(reporter_fns.keys(), config.plugin@),
        ensures
            groups_names(reporter_fns.keys(), key_intervals(reporter_fns.keys(), config.plugin@), w.schedule()),
    {
        let ghost keys = reporter_fns.keys();
        let ghost plugins = config.plugin@;
        let n = reporter_fns.len();
        let mut names: Vec<String> = Vec::new();
        let mut ivs: Vec<u64> = Vec::new();
        let mut i: usize = 0;
        while i < n
            invariant
                n == keys.len(),
                keys == reporter_fns.keys(),
                plugins == config.plugin@,
                all_configured(keys, plugins),
                i <= n,
                names@.len() == i,
                ivs@.len() == i,
                forall|j: int| 0 <= j < i ==> (#[trigger] names@[j])@ == keys[j],
                forall|j: int| 0 <= j < i ==> #[trigger] ivs@[j] == plugin_interval(plugins, keys[j]),
            decreases n - i,
        {
            let (name, _) = reporter_fns.entry(i);
            assert(has_plugin(plugins, keys[i as int]));
            let settings = config.get_plugin_config(name.as_str()).unwrap();
            names.push(name.clone());
            ivs.push(settings.get_interval());
            i = i + 1;
        }
        assert(string_views(names@) =~= keys);
        assert(ivs@ =~= key_intervals(keys, plugins));
        ScheduleWorker { intervals: group_by_interval(&names, &ivs) }
    }

    /// The reporters to request `elapsed_secs` seconds after the start.
    pub fn poll(&self, elapsed_secs: u64) -> (r: Vec<String>)
        ensures
            string_views(r@) == requests_at(self.schedule(), elapsed_secs),
    {
        if elapsed_secs == 0 {
            let r: Vec<String> = Vec::new();
            assert(string_views(r@) =~= Seq::<Seq<char>>::empty());
            r
        } else {
            due_in(&self.intervals, elapsed_secs)
        }
    }
}

/// This worker turns a report request into the report of that reporter.
pub struct ReporterWorker<'a> {
    reporter_fns: &'a NamedTable<Box<dyn ReporterFunction>>,
    config: &'a PsistatsConfiguration,
}

impl<'a> ReporterWorker<'a> {
    pub closed spec fn reporters(&self) -> NamedTable<Box<dyn ReporterFunction>> {
        *self.reporter_fns
    }

    pub closed spec fn configuration(&self) -> PsistatsConfiguration {
        *self.config
    }

    pub fn init(reporter_fns: &'a NamedTable<Box<dyn ReporterFunction>>, config: &'a PsistatsConfiguration) -> (w: Self)
        ensures
            w.reporters() == *reporter_fns,
            w.configuration() == *config,
    {
        ReporterWorker { reporter_fns, config }
    }

    /// The report of the reporter `reporter_name`, under the configured
    /// host name; the reporter's error where it fails.
    pub fn poll(&self, reporter_name: &str) -> (r: Result<PsistatsReport, PsistatsError>)
        requires
            self.reporters().has(reporter_name@),
            has_plugin(self.configuration().plugin@, reporter_name@),
        ensures
            r matches Ok(rep) ==> rep.reporter@ == reporter_name@ && rep.hostname@
                == self.configuration().settings.hostname@,
    {
        let reporter_fn = self.reporter_fns.get(reporter_name).unwrap();
        let settings = self.config.get_plugin_config(reporter_name).unwrap();
        let report_value = reporter_fn.call(settings)?;
        Ok(PsistatsReport::new(reporter_name, self.config.settings.hostname.as_str(), report_value))
    }
}

/// This worker hands every report to all publishers.
pub struct PublisherWorker<'a> {
    publisher_fns: &'a NamedTable<Box<dyn PublisherFunction>>,
    config: &'a PsistatsConfiguration,
}

impl<'a> PublisherWorker<'a> {
    pub closed spec fn publishers(&self) -> NamedTable<Box<dyn PublisherFunction>> {
        *self.publisher_fns
    }

    pub closed spec fn configuration(&self) -> PsistatsConfiguration {
        *self.config
    }

    pub fn init(publisher_fns: &'a NamedTable<Box<dyn PublisherFunction>>, config: &'a PsistatsConfiguration) -> (w: Self)
        ensures
            w.publishers() == *publisher_fns,
            w.configuration() == *config,
    {
        PublisherWorker { publisher_fns, config }
    }

    /// Hands `report` to each publisher in turn, with its settings; stops
    /// at the first publisher that fails and gives its error. With no
    /// publisher there is nothing to fail.
    pub fn poll(&self, report: &PsistatsReport) -> (r: Result<(), PsistatsError>)
        requires
            all_configured(self.publishers().keys(), self.configuration().plugin@),
        ensures
            self.publishers().keys().len() == 0 ==> r is Ok,
    {
        let n = self.publisher_fns.len();
        let mut i: usize = 0;
        while i < n
            invariant
                n == self.publishers().keys().len(),
                all_configured(self.publishers().keys(), self.configuration().plugin@),
                i <= n,
            decreases n - i,
        {
            let (name, publisher_fn) = self.publisher_fns.entry(i);
            assert(has_plugin(self.configuration().plugin@, self.publishers().keys()[i as int]));
            let settings = self.config.get_plugin_config(name.as_str()).unwrap();
            publisher_fn.call(report, settings)?;
            i = i + 1;
        }
        Ok(())
    }
}

/// This worker asks each command function for a command and turns report
/// commands into report requests.
pub struct CommandWorker<'a> {
    command_fns: &'a NamedTable<Box<dyn CommandFunction>>,
    config: &'a PsistatsConfiguration,
}

impl<'a> CommandWorker<'a> {
    pub closed spec fn commanders(&self) -> NamedTable<Box<dyn CommandFunction>> {
        *self.command_fns
    }

    pub closed spec fn configuration(&self) -> PsistatsConfiguration {
        *self.config
    }

    pub fn init(command_fns: &'a NamedTable<Box<dyn CommandFunction>>, config: &'a PsistatsConfiguration) -> (w: Self)
        ensures
            w.commanders() == *command_fns,
            w.configuration() == *config,
    {
        CommandWorker { command_fns, config }
    }

    /// The reports requested by the command functions, in the order of the
    /// functions: what [`command_requests`] makes of the command that each
    /// function returned.
    pub fn poll(&self) -> (r: Vec<String>)
        requires
            all_configured(self.commanders().keys(), self.configuration().plugin@),
        ensures
            exists|cmds: Seq<Option<Commands>>|
                cmds.len() == self.commanders().keys().len()
                && #[trigger] string_views(r@) == spec_command_requests(cmds),
    {
        let n = self.command_fns.len();
        let mut commands: Vec<Option<Commands>> = Vec::new();
        let mut i: usize = 0;
        while i < n
            invariant
                n == self.commanders().keys().len(),
                all_configured(self.commanders().keys(), self.configuration().plugin@),
                i <= n,
                commands@.len() == i,
            decreases n - i,
        {
            let (name, cmd_fn) = self.command_fns.entry(i);
            assert(has_plugin(self.configuration().plugin@, self.commanders().keys()[i as int]));
            let settings = self.config.get_plugin_config(name.as_str()).unwrap();
            commands.push(cmd_fn.call(self.config.settings.hostname.as_str(), settings));
            i = i + 1;
        }
        let r = command_requests(&commands);
        assert(commands@.len() == self.commanders().keys().len()
            && string_views(r@) == spec_command_requests(commands@));
        r
    }
}

/// The reports that the commands `cmds` request, in order.
pub open spec fn spec_command_requests(cmds: Seq<Option<Commands>>) -> Seq<Seq<char>>
    decreases cmds.len(),
{
    if cmds.len() == 0 {
        Seq::empty()
    } else {
        let rest = spec_command_requests(cmds.drop_last());
        match cmds.last() {
            Some(Commands::Report(name)) => rest.push(name@),
            None => rest,
        }
    }
}

/// The report requests of the commands that the command functions returned:
/// the name of each `Report` command, in order.
pub fn command_requests(cmds: &Vec<Option<Commands>>) -> (r: Vec<String>)
    ensures
        string_views(r@) == spec_command_requests(cmds@),
{
    let mut requests: Vec<String> = Vec::new();
    let mut i: usize = 0;
    while i < cmds.len()
        invariant
            i <= cmds@.len(),
            string_views(requests@) == spec_command_requests(cmds@.take(i as int)),
        decreases cmds.len() - i,
    {
        assert(cmds@.take(i + 1).drop_last() =~= cmds@.take(i as int));
        assert(cmds@.take(i + 1).last() == cmds@[i as int]);
        match &cmds[i] {
            Some(Commands::Report(name)) => {
                let ghost prev = requests@;
                requests.push(name.clone());
                assert(string_views(requests@) =~= string_views(prev).push(name@));
            },
            None => {},
        }
        i = i + 1;
    }
    assert(cmds@.take(i as int) =~= cmds@);
    requests
}

} // verus!
