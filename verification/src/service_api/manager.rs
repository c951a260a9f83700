//! The managers of the service: the reporter manager groups the enabled
//! reporters by interval and runs those due at each tick of its counter;
//! the publisher manager hands each report to the enabled publishers.
use vstd::prelude::*;
use crate::schedule::{
    IntervalGroup, schedule_of, groups_names, due_names, divides_due, string_views, group_by_interval,
    due_in, lemma_due_exactly,
};
use crate::service_api::api::{PluginError, PluginRegistrar, PsistatsReport};
use crate::service_api::config::{ReporterConfig, ServiceConfig};

verus! {

/// What the managers send each other: a request to report now, or a
/// report.
#[allow(non_camel_case_types)]
pub enum PluginCommands {
    FORCE_REPORT,
    REPORT(PsistatsReport),
}

/// The names of the enabled reporter entries, in order.
pub open spec fn enabled_reporters(rs: Seq<ReporterConfig>) -> Seq<Seq<char>>
    decreases rs.len(),
{
    if rs.len() == 0 {
        Seq::empty()
    } else {
        let rest = enabled_reporters(rs.drop_last());
        if rs.last().enabled() {
            rest.push(rs.last().name())
        } else {
            rest
        }
    }
}

/// The intervals of the enabled reporter entries, in order.
pub open spec fn enabled_intervals(rs: Seq<ReporterConfig>) -> Seq<u64>
    decreases rs.len(),
{
    if rs.len() == 0 {
        Seq::empty()
    } else {
        let rest = enabled_intervals(rs.drop_last());
        if rs.last().enabled() {
            rest.push(rs.last().interval() as u64)
        } else {
            rest
        }
    }
}

/// The positive intervals of the groups, in group order.
pub open spec fn positive_intervals(sched: Seq<(u64, Seq<Seq<char>>)>) -> Seq<u64>
    decreases sched.len(),
{
    if sched.len() == 0 {
        Seq::empty()
    } else {
        let rest = positive_intervals(sched.drop_last());
        if sched.last().0 > 0 {
            rest.push(sched.last().0)
        } else {
            rest
        }
    }
}

/// Whether some reporter entry is named `k`.
pub open spec fn has_reporter(rs: Seq<ReporterConfig>, k: Seq<char>) -> bool {
    exists|i: int| 0 <= i < rs.len() && (#[trigger] rs[i]).name() == k
}

/// Whether `i` is the last reporter entry named `k`.
pub open spec fn is_last_reporter(rs: Seq<ReporterConfig>, k: Seq<char>, i: int) -> bool {
    &&& 0 <= i < rs.len()
    &&& rs[i].name() == k
    &&& forall|j: int| i < j < rs.len() ==> (#[trigger] rs[j]).name() != k
}

proof fn lemma_enabled_lengths(rs: Seq<ReporterConfig>)
    ensures
        enabled_reporters(rs).len() == enabled_intervals(rs).len(),
        forall|i: int| 0 <= i < enabled_reporters(rs).len() ==> has_reporter(rs, #[trigger] enabled_reporters(rs)[i]),
        forall|i: int| 0 <= i < enabled_intervals(rs).len() ==> #[trigger] enabled_intervals(rs)[i] <= u32::MAX,
    decreases rs.len(),
{
    if rs.len() > 0 {
        let init = rs.drop_last();
        lemma_enabled_lengths(init);
        assert forall|i: int| 0 <= i < enabled_reporters(rs).len() implies has_reporter(rs, #[trigger] enabled_reporters(rs)[i]) by {
            if i < enabled_reporters(init).len() {
                assert(enabled_reporters(rs)[i] == enabled_reporters(init)[i]);
                let j = choose|j: int| 0 <= j < init.len() && (#[trigger] init[j]).name() == enabled_reporters(init)[i];
                assert(rs[j] == init[j]);
            } else {
                assert(rs[rs.len() - 1].name() == enabled_reporters(rs)[i]);
            }
        }
        assert forall|i: int| 0 <= i < enabled_intervals(rs).len() implies #[trigger] enabled_intervals(rs)[i] <= u32::MAX by {
            if i < enabled_intervals(init).len() {
                assert(enabled_intervals(rs)[i] == enabled_intervals(init)[i]);
            }
        }
    }
}

/// Splits the enabled reporter entries into their names and intervals.
fn enabled_entries(rconfs: &Vec<ReporterConfig>) -> (r: (Vec<String>, Vec<u64>))
    ensures
        string_views(r.0@) == enabled_reporters(rconfs@),
        r.1@ == enabled_intervals(rconfs@),
{
    let mut names: Vec<String> = Vec::new();
    let mut ivs: Vec<u64> = Vec::new();
    let mut i: usize = 0;
    while i < rconfs.len()
        invariant
            i <= rconfs@.len(),
            string_views(names@) == enabled_reporters(rconfs@.take(i as int)),
            ivs@ == enabled_intervals(rconfs@.take(i as int)),
        decreases rconfs.len() - i,
    {
        let c = &rconfs[i];
        assert(rconfs@.take(i + 1).drop_last() =~= rconfs@.take(i as int));
        assert(rconfs@.take(i + 1).last() == rconfs@[i as int]);
        if c.is_enabled() {
            let ghost prev = names@;
            let name = String::from_str(c.get_name());
            names.push(name);
            ivs.push(c.get_interval() as u64);
            assert(string_views(names@) =~= string_views(prev).push(name@));
        }
        i = i + 1;
    }
    assert(rconfs@.take(i as int) =~= rconfs@);
    (names, ivs)
}

/// Groups the enabled reporters by interval, and lists the positive
/// intervals.
pub fn get_reporter_intervals(rconfs: &Vec<ReporterConfig>) -> (r: (Vec<IntervalGroup>, Vec<u32>))
    ensures
        groups_names(enabled_reporters(rconfs@), enabled_intervals(rconfs@), schedule_of(r.0@)),
        r.1@.map_values(|v: u32| v as u64) == positive_intervals(schedule_of(r.0@)),
{
    let (names, ivs) = enabled_entries(rconfs);
    proof {
        lemma_enabled_lengths(rconfs@);
    }
    let groups = group_by_interval(&names, &ivs);
    let ghost sched = schedule_of(groups@);
    let mut intervals: Vec<u32> = Vec::new();
    let mut g: usize = 0;
    while g < groups.len()
        invariant
            sched == schedule_of(groups@),
            groups_names(enabled_reporters(rconfs@), enabled_intervals(rconfs@), sched),
            forall|i: int| 0 <= i < enabled_intervals(rconfs@).len() ==> #[trigger] enabled_intervals(rconfs@)[i] <= u32::MAX,
            g <= groups@.len(),
            intervals@.map_values(|v: u32| v as u64) == positive_intervals(sched.take(g as int)),
        decreases groups.len() - g,
    {
        let v = groups[g].interval;
        assert(sched.take(g + 1).drop_last() =~= sched.take(g as int));
        assert(sched.take(g + 1).last() == sched[g as int]);
        assert(sched[g as int].0 == v);
        if v > 0 {
            proof {
                let ivs = enabled_intervals(rconfs@);
                assert(crate::schedule::interval_occurs(ivs, sched[g as int].0));
                let i = choose|i: int| 0 <= i < ivs.len() && #[trigger] ivs[i] == sched[g as int].0;
                assert(ivs[i] <= u32::MAX);
            }
            let ghost prev = intervals@;
            intervals.push(v as u32);
            assert(intervals@.map_values(|v: u32| v as u64) =~= prev.map_values(|v: u32| v as u64).push(v));
        }
        g = g + 1;
    }
    assert(sched.take(g as int) =~= sched);
    (groups, intervals)
}

/// The reporter manager: the enabled reporters grouped by interval, and the
/// configuration entry of each reporter name (the last with that name).
pub struct ReporterManager<'a> {
    conf: &'a ServiceConfig,
    reporter_interval_map: Vec<IntervalGroup>,
    reporter_intervals: Vec<u32>,
}

impl<'a> ReporterManager<'a> {
    pub closed spec fn configuration(&self) -> ServiceConfig {
        *self.conf
    }

    pub closed spec fn schedule(&self) -> Seq<(u64, Seq<Seq<char>>)> {
        schedule_of(self.reporter_interval_map@)
    }

    pub closed spec fn intervals(&self) -> Seq<u32> {
        self.reporter_intervals@
    }

    /// The manager of the reporters configured in `conf`.
    pub fn build(conf: &'a ServiceConfig) -> (m: Self)
        ensures
            m.configuration() == *conf,
            groups_names(enabled_reporters(conf.r_plugin@), enabled_intervals(conf.r_plugin@), m.schedule()),
            m.intervals().map_values(|v: u32| v as u64) == positive_intervals(m.schedule()),
    {
        let (groups, intervals) = get_reporter_intervals(conf.get_reporter_configs());
        ReporterManager { conf, reporter_interval_map: groups, reporter_intervals: intervals }
    }

    /// The positive intervals.
    pub fn get_intervals(&self) -> (r: &Vec<u32>)
        ensures
            r@ == self.intervals(),
    {
        &self.reporter_intervals
    }

    /// The largest interval: the length of the counter's cycle.
    pub fn max_count(&self) -> (r: u32)
        requires
            self.intervals().len() > 0,
        ensures
            self.intervals().contains(r),
            forall|i: int| 0 <= i < self.intervals().len() ==> #[trigger] self.intervals()[i] <= r,
    {
        let mut m = self.reporter_intervals[0];
        let mut i: usize = 1;
        assert(self.intervals().take(1)[0] == m);
        while i < self.reporter_intervals.len()
            invariant
                1 <= i <= self.intervals().len(),
                self.intervals() == self.reporter_intervals@,
                self.intervals().take(i as int).contains(m),
                forall|j: int| 0 <= j < i ==> #[trigger] self.intervals()[j] <= m,
            decreases self.reporter_intervals.len() - i,
        {
            let ghost prev = m;
            if self.reporter_intervals[i] > m {
                m = self.reporter_intervals[i];
                assert(self.intervals().take(i + 1)[i as int] == m);
            } else {
                proof {
                    let k = choose|k: int| 0 <= k < i && self.intervals().take(i as int)[k] == prev;
                    assert(self.intervals().take(i + 1)[k] == m);
                }
            }
            i = i + 1;
        }
        assert(self.intervals().take(i as int) =~= self.intervals());
        m
    }

    /// The reporters due at tick `counter`, group after group.
    pub fn due_reporters(&self, counter: u32) -> (r: Vec<String>)
        ensures
            string_views(r@) == due_names(self.schedule(), counter as u64),
    {
        due_in(&self.reporter_interval_map, counter as u64)
    }

    /// The position of the last reporter entry named `name`.
    fn last_config(&self, name: &str) -> (r: Option<usize>)
        ensures
            match r {
                Some(i) => is_last_reporter(self.configuration().r_plugin@, name@, i as int),
                None => !has_reporter(self.configuration().r_plugin@, name@),
            },
    {
        let rs = &self.conf.r_plugin;
        let mut i: usize = rs.len();
        while i > 0
            invariant
                i <= rs@.len(),
                rs@ == self.configuration().r_plugin@,
                forall|j: int| i <= j < rs@.len() ==> (#[trigger] rs@[j]).name() != name@,
            decreases i,
        {
            i = i - 1;
            if crate::text::str_eq(rs[i].get_name(), name) {
                return Some(i);
            }
        }
        None
    }

    /// The reporters due at tick `counter`, group after group, each with
    /// the position of the last configuration entry of its name: what
    /// [`ReporterManager::run_reporters`] calls, and with what.
    pub fn due_calls(&self, counter: u32) -> (r: Vec<(String, usize)>)
        requires
            groups_names(enabled_reporters(self.configuration().r_plugin@), enabled_intervals(self.configuration().r_plugin@), self.schedule()),
        ensures
            r@.len() == due_names(self.schedule(), counter as u64).len(),
            forall|x: int| 0 <= x < r@.len() ==> (#[trigger] r@[x]).0@ == due_names(self.schedule(), counter as u64)[x]
                && is_last_reporter(self.configuration().r_plugin@, r@[x].0@, r@[x].1 as int),
    {
        let names = self.due_reporters(counter);
        let ghost rs = self.configuration().r_plugin@;
        let ghost due = due_names(self.schedule(), counter as u64);
        proof {
            lemma_enabled_lengths(rs);
            assert forall|x: int| 0 <= x < names@.len() implies has_reporter(rs, #[trigger] names@[x]@) by {
                let k = names@[x]@;
                assert(string_views(names@)[x] == k);
                assert(due.contains(k));
                lemma_due_exactly(enabled_reporters(rs), enabled_intervals(rs), self.schedule(), counter as u64, k);
                let i = choose|i: int| 0 <= i < enabled_reporters(rs).len() && enabled_reporters(rs)[i] == k && divides_due(#[trigger] enabled_intervals(rs)[i], counter as u64);
                assert(has_reporter(rs, enabled_reporters(rs)[i]));
            }
        }
        let mut calls: Vec<(String, usize)> = Vec::new();
        let mut i: usize = 0;
        while i < names.len()
            invariant
                rs == self.configuration().r_plugin@,
                due == due_names(self.schedule(), counter as u64),
                string_views(names@) == due,
                i <= names@.len(),
                calls@.len() == i,
                forall|x: int| 0 <= x < names@.len() ==> has_reporter(rs, #[trigger] names@[x]@),
                forall|x: int| 0 <= x < i ==> (#[trigger] calls@[x]).0@ == due[x] && is_last_reporter(rs, calls@[x].0@, calls@[x].1 as int),
            decreases names.len() - i,
        {
            let name = names[i].as_str();
            assert(has_reporter(rs, names@[i as int]@));
            assert(string_views(names@)[i as int] == name@);
            let idx = match self.last_config(name) {
                Some(idx) => idx,
                None => {
                    assert(false);
                    0
                },
            };
            calls.push((names[i].clone(), idx));
            i = i + 1;
        }
        calls
    }

    /// Runs the reporters due at tick `counter`, group after group, each
    /// with the last configuration entry of its name (the calls of
    /// [`ReporterManager::due_calls`]), and gives their reports in that
    /// order. Fails with the registrar's error where a due reporter is not
    /// registered, and with the reporter's error where one fails. Where
    /// none is due it gives no reports and does not fail.
    pub fn run_reporters(&self, counter: u32, registrar: &dyn PluginRegistrar) -> (r: Result<Vec<PsistatsReport>, PluginError>)
        requires
            groups_names(enabled_reporters(self.configuration().r_plugin@), enabled_intervals(self.configuration().r_plugin@), self.schedule()),
        ensures
            r matches Ok(reports) ==> reports@.len() == due_names(self.schedule(), counter as u64).len(),
            due_names(self.schedule(), counter as u64).len() == 0 ==> (r matches Ok(reports) && reports@.len() == 0),
    {
        let calls = self.due_calls(counter);
        let ghost rs = self.configuration().r_plugin@;
        let mut reports: Vec<PsistatsReport> = Vec::new();
        let mut i: usize = 0;
        while i < calls.len()
            invariant
                rs == self.configuration().r_plugin@,
                calls@.len() == due_names(self.schedule(), counter as u64).len(),
                forall|x: int| 0 <= x < calls@.len() ==> is_last_reporter(rs, (#[trigger] calls@[x]).0@, calls@[x].1 as int),
                i <= calls@.len(),
                reports@.len() == i,
            decreases calls.len() - i,
        {
            let (name, idx) = &calls[i];
            assert(is_last_reporter(rs, calls@[i as int].0@, calls@[i as int].1 as int));
            let reporter = registrar.get_reporter(name.as_str())?;
            let report = reporter.call(&self.conf.r_plugin[*idx])?;
            reports.push(report);
            i = i + 1;
        }
        Ok(reports)
    }
}

/// The publisher manager: the enabled publisher entries, in order.
pub struct PublisherManager<'a> {
    conf: &'a ServiceConfig,
    enabled: Vec<usize>,
}

/// The positions of the enabled publisher entries, in order.
pub open spec fn enabled_publisher_positions(conf: ServiceConfig) -> Seq<int>
    decreases conf.p_plugin@.len(),
{
    enabled_positions_upto(conf, conf.p_plugin@.len() as int)
}

pub open spec fn enabled_positions_upto(conf: ServiceConfig, n: int) -> Seq<int>
    decreases n,
{
    if n <= 0 {
        Seq::empty()
    } else {
        let rest = enabled_positions_upto(conf, n - 1);
        if conf.p_plugin@[n - 1].enabled() {
            rest.push(n - 1)
        } else {
            rest
        }
    }
}

proof fn lemma_positions_bounded(conf: ServiceConfig, n: int)
    requires
        0 <= n <= conf.p_plugin@.len(),
    ensures
        forall|i: int| 0 <= i < enabled_positions_upto(conf, n).len() ==> 0 <= #[trigger] enabled_positions_upto(conf, n)[i] < n,
    decreases n,
{
    if n > 0 {
        lemma_positions_bounded(conf, n - 1);
        assert forall|i: int| 0 <= i < enabled_positions_upto(conf, n).len() implies 0 <= #[trigger] enabled_positions_upto(conf, n)[i] < n by {
            if i < enabled_positions_upto(conf, n - 1).len() {
                assert(enabled_positions_upto(conf, n)[i] == enabled_positions_upto(conf, n - 1)[i]);
            }
        }
    }
}

impl<'a> PublisherManager<'a> {
    pub closed spec fn configuration(&self) -> ServiceConfig {
        *self.conf
    }

    /// The positions of the publisher entries this manager hands reports to.
    pub closed spec fn publisher_positions(&self) -> Seq<int> {
        self.enabled@.map_values(|i: usize| i as int)
    }

    /// The manager of the publishers configured in `conf`.
    pub fn build(conf: &'a ServiceConfig) -> (m: Self)
        ensures
            m.configuration() == *conf,
            m.publisher_positions() == enabled_publisher_positions(*conf),
    {
        let mut enabled: Vec<usize> = Vec::new();
        let mut i: usize = 0;
        while i < conf.p_plugin.len()
            invariant
                i <= conf.p_plugin@.len(),
                enabled@.map_values(|i: usize| i as int) == enabled_positions_upto(*conf, i as int),
            decreases conf.p_plugin.len() - i,
        {
            if conf.p_plugin[i].is_enabled() {
                let ghost prev = enabled@;
                enabled.push(i);
                assert(enabled@.map_values(|i: usize| i as int) =~= prev.map_values(|i: usize| i as int).push(i as int));
            }
            i = i + 1;
        }
        PublisherManager { conf, enabled }
    }

    /// Hands `report` to each enabled publisher in turn, with its
    /// configuration entry; fails with the registrar's error where one is
    /// not registered, and with the publisher's error where one fails.
    /// With no enabled publisher entry there is nothing to fail.
    pub fn run_publishers(&self, report: &PsistatsReport, registrar: &dyn PluginRegistrar) -> (r: Result<(), PluginError>)
        requires
            self.publisher_positions() == enabled_publisher_positions(self.configuration()),
        ensures
            enabled_publisher_positions(self.configuration()).len() == 0 ==> r is Ok,
    {
        proof {
            lemma_positions_bounded(self.configuration(), self.configuration().p_plugin@.len() as int);
        }
        let mut i: usize = 0;
        while i < self.enabled.len()
            invariant
                i <= self.enabled@.len(),
                self.publisher_positions() == enabled_publisher_positions(self.configuration()),
                forall|j: int| 0 <= j < self.publisher_positions().len() ==> 0 <= #[trigger] self.publisher_positions()[j] < self.configuration().p_plugin@.len(),
            decreases self.enabled.len() - i,
        {
            let idx = self.enabled[i];
            assert(self.publisher_positions()[i as int] == idx as int);
            let pconf = &self.conf.p_plugin[idx];
            let publisher = registrar.get_publisher(pconf.get_name())?;
            publisher.call(report, pconf)?;
            i = i + 1;
        }
        Ok(())
    }
}

} // verus!
