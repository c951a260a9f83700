//! What the first generation's managers read from the configuration: the
//! reporters to run on which interval, and the publishers and commanders to
//! enable. A section `r_<id>` configures the reporter `<id>`, a section
//! `p_<id>` the publisher `<id>`; `settings` holds the worker count and the
//! timer.
use vstd::prelude::*;
use crate::config_value::{ConfigTable, ConfigValue};
use crate::text::{is_prefix, remove_all, starts_with, remove_all_of};
use crate::legacy::reporters::{spec_get_reporter, get_reporter};
use crate::legacy::publishers::{
    CommanderKind, PublisherKind, spec_get_commander, spec_get_publisher, get_commander, get_publisher,
};
use crate::schedule::{
    IntervalGroup, group_by_interval, groups_names, schedule_of, string_views, due_names, due_in, divides_due,
    lemma_due_exactly, next_counter, spec_next_counter,
};

verus! {

/// The table of the section `k`.
pub open spec fn section(conf: ConfigTable, k: Seq<char>) -> ConfigTable {
    conf.lookup(k)->Some_0->Table_0
}

pub open spec fn has_bool(t: ConfigTable, key: Seq<char>) -> bool {
    t.lookup(key) matches Some(ConfigValue::Boolean(_))
}

pub open spec fn has_int(t: ConfigTable, key: Seq<char>) -> bool {
    t.lookup(key) matches Some(ConfigValue::Integer(_))
}

pub open spec fn get_bool(t: ConfigTable, key: Seq<char>) -> bool {
    t.lookup(key)->Some_0->Boolean_0
}

pub open spec fn get_int(t: ConfigTable, key: Seq<char>) -> i64 {
    t.lookup(key)->Some_0->Integer_0
}

/// The id a section configures: its name without the prefix.
pub open spec fn section_id(k: Seq<char>, prefix: Seq<char>) -> Seq<char> {
    remove_all(k, prefix)
}

/// Whether the section `k` is a table with an `enabled` flag.
pub open spec fn section_ok(conf: ConfigTable, k: Seq<char>) -> bool {
    conf.lookup(k) matches Some(ConfigValue::Table(t)) && has_bool(t, "enabled"@)
}

/// Whether the reporter section `k` is one the reporter manager reads: a
/// table with an `enabled` flag, and an `interval` where it enables a known
/// reporter.
pub open spec fn reporter_section_ok(conf: ConfigTable, k: Seq<char>) -> bool {
    &&& section_ok(conf, k)
    &&& (get_bool(section(conf, k), "enabled"@) && spec_get_reporter(section_id(k, "r_"@)) is Some)
        ==> has_int(section(conf, k), "interval"@)
}

/// Whether the configuration is one the reporter manager reads: a
/// `settings` table with integer `workers` and `timer`, and reporter
/// sections it reads.
pub open spec fn reporters_config_ok(conf: ConfigTable) -> bool {
    &&& conf.lookup("settings"@) matches Some(ConfigValue::Table(t))
    &&& has_int(section(conf, "settings"@), "workers"@)
    &&& has_int(section(conf, "settings"@), "timer"@)
    &&& forall|i: int| 0 <= i < conf.keys().len() && is_prefix("r_"@, conf.keys()[i]) ==> reporter_section_ok(conf, #[trigger] conf.keys()[i])
}

/// Whether the configuration is one the publisher manager reads: every
/// publisher section is a table with an `enabled` flag.
pub open spec fn publishers_config_ok(conf: ConfigTable) -> bool {
    forall|i: int| 0 <= i < conf.keys().len() && is_prefix("p_"@, conf.keys()[i]) ==> section_ok(conf, #[trigger] conf.keys()[i])
}

/// The reporters that the sections `keys` enable, each with its interval,
/// in order: the enabled sections `r_<id>` whose `<id>` is a known reporter.
pub open spec fn chosen_reporters(conf: ConfigTable, keys: Seq<Seq<char>>) -> Seq<(Seq<char>, u64)>
    decreases keys.len(),
{
    if keys.len() == 0 {
        Seq::empty()
    } else {
        let rest = chosen_reporters(conf, keys.drop_last());
        let k = keys.last();
        if is_prefix("r_"@, k) && get_bool(section(conf, k), "enabled"@) && spec_get_reporter(section_id(k, "r_"@)) is Some {
            rest.push((section_id(k, "r_"@), #[verifier::truncate] (get_int(section(conf, k), "interval"@) as u64)))
        } else {
            rest
        }
    }
}

/// The largest of 1 and the intervals.
pub open spec fn max_interval(rs: Seq<(Seq<char>, u64)>) -> u64
    decreases rs.len(),
{
    if rs.len() == 0 {
        1
    } else {
        let m = max_interval(rs.drop_last());
        if rs.last().1 > m {
            rs.last().1
        } else {
            m
        }
    }
}

/// Cycle law: the counter's cycle is at least 1 and at least every chosen
/// interval, so each interval divides some counter value of the cycle.
pub proof fn lemma_cycle_covers_intervals(rs: Seq<(Seq<char>, u64)>)
    ensures
        max_interval(rs) >= 1,
        forall|i: int| 0 <= i < rs.len() ==> (#[trigger] rs[i]).1 <= max_interval(rs),
    decreases rs.len(),
{
    if rs.len() > 0 {
        let init = rs.drop_last();
        lemma_cycle_covers_intervals(init);
        assert forall|i: int| 0 <= i < rs.len() implies (#[trigger] rs[i]).1 <= max_interval(rs) by {
            if i < init.len() {
                assert(rs[i] == init[i]);
            }
        }
    }
}

/// What the reporter manager runs: the chosen reporters grouped by
/// interval, the length of the counter's cycle, the number of workers and
/// the timer in milliseconds.
pub struct ReporterPlan {
    pub groups: Vec<IntervalGroup>,
    pub max_counter: u64,
    pub workers: u64,
    pub timer: u64,
}

fn section_of<'a>(conf: &'a ConfigTable, k: &str) -> (r: Option<&'a ConfigTable>)
    ensures
        match r {
            Some(t) => conf.lookup(k@) matches Some(ConfigValue::Table(u)) && *t == u,
            None => !(conf.lookup(k@) matches Some(ConfigValue::Table(_))),
        },
{
    match conf.get(k) {
        Some(v) => v.as_table(),
        None => None,
    }
}

fn bool_of(t: &ConfigTable, key: &str) -> (r: Option<bool>)
    ensures
        match r {
            Some(b) => has_bool(*t, key@) && b == get_bool(*t, key@),
            None => !has_bool(*t, key@),
        },
{
    match t.get(key) {
        Some(v) => v.as_bool(),
        None => None,
    }
}

fn int_of(t: &ConfigTable, key: &str) -> (r: Option<i64>)
    ensures
        match r {
            Some(i) => has_int(*t, key@) && i == get_int(*t, key@),
            None => !has_int(*t, key@),
        },
{
    match t.get(key) {
        Some(v) => v.as_integer(),
        None => None,
    }
}

/// Whether the reporter section `k` is one the reporter manager reads.
fn check_reporter_section(conf: &ConfigTable, k: &str) -> (b: bool)
    ensures
        b == reporter_section_ok(*conf, k@),
{
    match section_of(conf, k) {
        Some(t) => match bool_of(t, "enabled") {
            Some(enabled) => {
                if enabled && get_reporter(remove_all_of(k, "r_")).is_some() {
                    int_of(t, "interval").is_some()
                } else {
                    true
                }
            },
            None => false,
        },
        None => false,
    }
}

/// Whether the configuration is one [`plan_reporters`] reads.
pub fn check_reporters_config(conf: &ConfigTable) -> (b: bool)
    ensures
        b == reporters_config_ok(*conf),
{
    let settings_ok = match section_of(conf, "settings") {
        Some(t) => int_of(t, "workers").is_some() && int_of(t, "timer").is_some(),
        None => false,
    };
    if !settings_ok {
        return false;
    }
    let n = conf.len();
    let mut i: usize = 0;
    while i < n
        invariant
            n == conf.keys().len(),
            i <= n,
            forall|j: int| 0 <= j < i && is_prefix("r_"@, conf.keys()[j]) ==> reporter_section_ok(*conf, #[trigger] conf.keys()[j]),
        decreases n - i,
    {
        let (k, _) = conf.entry(i);
        if starts_with(k.as_str(), "r_") && !check_reporter_section(conf, k.as_str()) {
            return false;
        }
        i = i + 1;
    }
    true
}

/// Whether the configuration is one [`plan_publishers`] reads.
pub fn check_publishers_config(conf: &ConfigTable) -> (b: bool)
    ensures
        b == publishers_config_ok(*conf),
{
    let n = conf.len();
    let mut i: usize = 0;
    while i < n
        invariant
            n == conf.keys().len(),
            i <= n,
            forall|j: int| 0 <= j < i && is_prefix("p_"@, conf.keys()[j]) ==> section_ok(*conf, #[trigger] conf.keys()[j]),
        decreases n - i,
    {
        let (k, _) = conf.entry(i);
        if starts_with(k.as_str(), "p_") {
            let ok = match section_of(conf, k.as_str()) {
                Some(t) => bool_of(t, "enabled").is_some(),
                None => false,
            };
            if !ok {
                return false;
            }
        }
        i = i + 1;
    }
    true
}

pub open spec fn pair_names(rs: Seq<(Seq<char>, u64)>) -> Seq<Seq<char>> {
    rs.map_values(|p: (Seq<char>, u64)| p.0)
}

pub open spec fn pair_intervals(rs: Seq<(Seq<char>, u64)>) -> Seq<u64> {
    rs.map_values(|p: (Seq<char>, u64)| p.1)
}

/// The reporters to run and how: the enabled sections of known reporters
/// grouped by interval, the cycle length (the largest interval, at least
/// 1), and the workers and timer of the settings.
pub fn plan_reporters(conf: &ConfigTable) -> (p: ReporterPlan)
    requires
        reporters_config_ok(*conf),
    ensures
        groups_names(pair_names(chosen_reporters(*conf, conf.keys())), pair_intervals(chosen_reporters(*conf, conf.keys())), schedule_of(p.groups@)),
        p.max_counter == max_interval(chosen_reporters(*conf, conf.keys())),
        p.workers == #[verifier::truncate] (get_int(section(*conf, "settings"@), "workers"@) as u64),
        p.timer == #[verifier::truncate] (get_int(section(*conf, "settings"@), "timer"@) as u64),
{
    let settings = section_of(conf, "settings").unwrap();
    let workers = #[verifier::truncate] (int_of(settings, "workers").unwrap() as u64);
    let timer = #[verifier::truncate] (int_of(settings, "timer").unwrap() as u64);
    let ghost keys = conf.keys();
    let n = conf.len();
    let mut names: Vec<String> = Vec::new();
    let mut ivs: Vec<u64> = Vec::new();
    let mut max_counter: u64 = 1;
    let mut i: usize = 0;
    while i < n
        invariant
            n == keys.len(),
            keys == conf.keys(),
            reporters_config_ok(*conf),
            i <= n,
            string_views(names@) == pair_names(chosen_reporters(*conf, keys.take(i as int))),
            ivs@ == pair_intervals(chosen_reporters(*conf, keys.take(i as int))),
            max_counter == max_interval(chosen_reporters(*conf, keys.take(i as int))),
        decreases n - i,
    {
        let (k, _) = conf.entry(i);
        let ghost pre = chosen_reporters(*conf, keys.take(i as int));
        assert(keys.take(i + 1).drop_last() =~= keys.take(i as int));
        assert(keys.take(i + 1).last() == keys[i as int]);
        if starts_with(k.as_str(), "r_") {
            assert(reporter_section_ok(*conf, keys[i as int]));
            let t = section_of(conf, k.as_str()).unwrap();
            let enabled = bool_of(t, "enabled").unwrap();
            if enabled {
                let id = remove_all_of(k.as_str(), "r_");
                if get_reporter(id.clone()).is_some() {
                    let interval = #[verifier::truncate] (int_of(t, "interval").unwrap() as u64);
                    if interval > max_counter {
                        max_counter = interval;
                    }
                    let ghost prev = names@;
                    assert(id@ == section_id(keys[i as int], "r_"@));
                    let ghost idv = id@;
                    names.push(id);
                    ivs.push(interval);
                    let ghost post = pre.push((section_id(keys[i as int], "r_"@), interval));
                    assert(string_views(names@) =~= string_views(prev).push(idv));
                    assert(pair_names(post) =~= pair_names(pre).push(section_id(keys[i as int], "r_"@)));
                    assert(string_views(names@) =~= pair_names(post));
                    assert(ivs@ =~= pair_intervals(post));
                    assert(post.drop_last() =~= pre);
                }
            }
        }
        i = i + 1;
    }
    assert(keys.take(n as int) =~= keys);
    ReporterPlan { groups: group_by_interval(&names, &ivs), max_counter, workers, timer }
}

/// The publishers and commanders that the sections `keys` enable, in
/// order: for each enabled section `p_<id>`, the publisher and the
/// commander named `<id>`, where there is one.
pub open spec fn chosen_publishers(conf: ConfigTable, keys: Seq<Seq<char>>) -> Seq<PublisherKind>
    decreases keys.len(),
{
    if keys.len() == 0 {
        Seq::empty()
    } else {
        let rest = chosen_publishers(conf, keys.drop_last());
        let k = keys.last();
        if is_prefix("p_"@, k) && get_bool(section(conf, k), "enabled"@) && spec_get_publisher(section_id(k, "p_"@)) is Some {
            rest.push(spec_get_publisher(section_id(k, "p_"@))->Some_0)
        } else {
            rest
        }
    }
}

pub open spec fn chosen_commanders(conf: ConfigTable, keys: Seq<Seq<char>>) -> Seq<CommanderKind>
    decreases keys.len(),
{
    if keys.len() == 0 {
        Seq::empty()
    } else {
        let rest = chosen_commanders(conf, keys.drop_last());
        let k = keys.last();
        if is_prefix("p_"@, k) && get_bool(section(conf, k), "enabled"@) && spec_get_commander(section_id(k, "p_"@)) is Some {
            rest.push(spec_get_commander(section_id(k, "p_"@))->Some_0)
        } else {
            rest
        }
    }
}

/// The publishers and commanders that the configuration enables.
pub fn plan_publishers(conf: &ConfigTable) -> (r: (Vec<PublisherKind>, Vec<CommanderKind>))
    requires
        publishers_config_ok(*conf),
    ensures
        r.0@ == chosen_publishers(*conf, conf.keys()),
        r.1@ == chosen_commanders(*conf, conf.keys()),
{
    let ghost keys = conf.keys();
    let n = conf.len();
    let mut publishers: Vec<PublisherKind> = Vec::new();
    let mut commanders: Vec<CommanderKind> = Vec::new();
    let mut i: usize = 0;
    while i < n
        invariant
            n == keys.len(),
            keys == conf.keys(),
            publishers_config_ok(*conf),
            i <= n,
            publishers@ == chosen_publishers(*conf, keys.take(i as int)),
            commanders@ == chosen_commanders(*conf, keys.take(i as int)),
        decreases n - i,
    {
        let (k, _) = conf.entry(i);
        assert(keys.take(i + 1).drop_last() =~= keys.take(i as int));
        assert(keys.take(i + 1).last() == keys[i as int]);
        if starts_with(k.as_str(), "p_") {
            assert(section_ok(*conf, keys[i as int]));
            let t = section_of(conf, k.as_str()).unwrap();
            if bool_of(t, "enabled").unwrap() {
                let id = remove_all_of(k.as_str(), "p_");
                match get_publisher(id.clone()) {
                    Some(p) => publishers.push(p),
                    None => {},
                }
                match get_commander(id) {
                    Some(c) => commanders.push(c),
                    None => {},
                }
            }
        }
        i = i + 1;
    }
    assert(keys.take(n as int) =~= keys);
    (publishers, commanders)
}

/// The counter of the reporter loop in its iteration `k`: it starts from
/// 1 and advances once before each iteration's reporters run.
pub open spec fn counter_at(k: nat, max: u64) -> u64
    decreases k,
{
    if k == 0 {
        1
    } else {
        spec_next_counter(counter_at((k - 1) as nat, max), max)
    }
}

/// One iteration of the reporter loop: the counter after `counter`, and
/// the reporters due at it, group after group.
pub fn reporter_tick(plan: &ReporterPlan, counter: u64) -> (r: (u64, Vec<String>))
    ensures
        r.0 == spec_next_counter(counter, plan.max_counter),
        string_views(r.1@) == due_names(schedule_of(plan.groups@), r.0),
{
    let next = next_counter(counter, plan.max_counter);
    (next, due_in(&plan.groups, next))
}

/// Reporter loop law: with the reporters grouped by interval and a cycle
/// of `max >= 1`, in iteration `k` the counter is `(k % max) + 1`, and a
/// reporter runs exactly when one of its entries has an interval that is
/// positive and divides that counter. Reporters with interval 0 never run.
pub proof fn lemma_reporter_loop(
    names: Seq<Seq<char>>,
    ivs: Seq<u64>,
    sched: Seq<(u64, Seq<Seq<char>>)>,
    max: u64,
    k: nat,
    id: Seq<char>,
)
    requires
        groups_names(names, ivs, sched),
        max >= 1,
    ensures
        counter_at(k, max) == (k % (max as nat)) + 1,
        due_names(sched, counter_at(k, max)).contains(id) <==> exists|i: int|
            0 <= i < names.len() && names[i] == id && divides_due(#[trigger] ivs[i], ((k % (max as nat)) + 1) as u64),
{
    lemma_counter_at(k, max);
    lemma_due_exactly(names, ivs, sched, counter_at(k, max), id);
}

proof fn lemma_counter_at(k: nat, max: u64)
    requires
        max >= 1,
    ensures
        counter_at(k, max) == (k % (max as nat)) + 1,
    decreases k,
{
    let m = max as nat;
    if k > 0 {
        let j = (k - 1) as nat;
        lemma_counter_at(j, max);
        assert(j % m == m - 1 ==> k % m == 0) by (nonlinear_arith)
            requires
                m >= 1,
                k == j + 1,
        ;
        assert(j % m < m - 1 ==> k % m == j % m + 1) by (nonlinear_arith)
            requires
                m >= 1,
                k == j + 1,
        ;
        assert(j % m < m) by (nonlinear_arith)
            requires
                m >= 1,
        ;
        let c = counter_at(j, max);
        assert(c == j % m + 1);
        if c >= max {
            assert(j % m == m - 1);
            assert(counter_at(k, max) == 1);
        } else {
            assert(counter_at(k, max) == c + 1);
        }
    } else {
        assert(0nat % m == 0) by (nonlinear_arith)
            requires
                m >= 1,
        ;
    }
}

} // verus!
