//! Grouping reporters by their interval, and choosing the groups that are
//! due at a given tick.
use vstd::prelude::*;

verus! {

/// The characters of each string.
pub open spec fn string_views(v: Seq<String>) -> Seq<Seq<char>> {
    v.map_values(|s: String| s@)
}

/// Whether a group with interval `interval` is due at tick `tick`: an
/// interval of 0 is never due, any other is due when it divides the tick.
pub open spec fn divides_due(interval: u64, tick: u64) -> bool {
    interval > 0 && tick % interval == 0
}

/// The names whose interval is `v`, in order (`ivs[i]` is the interval of
/// `names[i]`).
pub open spec fn names_with_interval(names: Seq<Seq<char>>, ivs: Seq<u64>, v: u64) -> Seq<Seq<char>>
    decreases names.len(),
{
    if names.len() == 0 || ivs.len() != names.len() {
        Seq::empty()
    } else {
        let rest = names_with_interval(names.drop_last(), ivs.drop_last(), v);
        if ivs.last() == v {
            rest.push(names.last())
        } else {
            rest
        }
    }
}

/// Whether one of the groups has the interval `v`.
pub open spec fn has_group(sched: Seq<(u64, Seq<Seq<char>>)>, v: u64) -> bool {
    exists|g: int| 0 <= g < sched.len() && (#[trigger] sched[g]).0 == v
}

/// Whether one of the names has the interval `v`.
pub open spec fn interval_occurs(ivs: Seq<u64>, v: u64) -> bool {
    exists|i: int| 0 <= i < ivs.len() && #[trigger] ivs[i] == v
}

/// Whether `sched` groups `names` by interval: one group per interval that
/// occurs, each with the names of that interval in their order.
pub open spec fn groups_names(names: Seq<Seq<char>>, ivs: Seq<u64>, sched: Seq<(u64, Seq<Seq<char>>)>) -> bool {
    &&& names.len() == ivs.len()
    &&& forall|g: int| 0 <= g < sched.len() ==> (#[trigger] sched[g]).1 == names_with_interval(names, ivs, sched[g].0)
    &&& forall|g: int, h: int| 0 <= g < h < sched.len() ==> (#[trigger] sched[g]).0 != (#[trigger] sched[h]).0
    &&& forall|i: int| 0 <= i < ivs.len() ==> has_group(sched, #[trigger] ivs[i])
    &&& forall|g: int| 0 <= g < sched.len() ==> interval_occurs(ivs, (#[trigger] sched[g]).0)
}

/// The names of the groups due at `tick`, group after group.
pub open spec fn due_names(sched: Seq<(u64, Seq<Seq<char>>)>, tick: u64) -> Seq<Seq<char>>
    decreases sched.len(),
{
    if sched.len() == 0 {
        Seq::empty()
    } else {
        let rest = due_names(sched.drop_last(), tick);
        if divides_due(sched.last().0, tick) {
            rest + sched.last().1
        } else {
            rest
        }
    }
}

/// Reporters that share one interval.
pub struct IntervalGroup {
    pub interval: u64,
    pub plugins: Vec<String>,
}

/// The groups as intervals with the names in each.
pub open spec fn schedule_of(groups: Seq<IntervalGroup>) -> Seq<(u64, Seq<Seq<char>>)> {
    groups.map_values(|g: IntervalGroup| (g.interval, string_views(g.plugins@)))
}

proof fn lemma_push_contains(s: Seq<Seq<char>>, x: Seq<char>, k: Seq<char>)
    ensures
        s.push(x).contains(k) <==> (s.contains(k) || k == x),
{
    if s.contains(k) {
        let i = choose|i: int| 0 <= i < s.len() && s[i] == k;
        assert(s.push(x)[i] == k);
    }
    if k == x {
        assert(s.push(x)[s.len() as int] == k);
    }
    if s.push(x).contains(k) {
        let i = choose|i: int| 0 <= i < s.push(x).len() && s.push(x)[i] == k;
        if i < s.len() {
            assert(s[i] == k);
        }
    }
}

/// Whether some name equal to `k` has the interval `v`.
pub open spec fn named_with(names: Seq<Seq<char>>, ivs: Seq<u64>, k: Seq<char>, v: u64) -> bool {
    exists|i: int| 0 <= i < names.len() && names[i] == k && #[trigger] ivs[i] == v
}

proof fn lemma_names_with_interval_member(names: Seq<Seq<char>>, ivs: Seq<u64>, v: u64, k: Seq<char>)
    requires
        names.len() == ivs.len(),
    ensures
        names_with_interval(names, ivs, v).contains(k) <==> named_with(names, ivs, k, v),
    decreases names.len(),
{
    if names.len() == 0 {
        assert(names_with_interval(names, ivs, v) =~= Seq::<Seq<char>>::empty());
    } else {
        let n0 = names.drop_last();
        let i0 = ivs.drop_last();
        lemma_names_with_interval_member(n0, i0, v, k);
        let rest = names_with_interval(n0, i0, v);
        let last = names.last();
        if ivs.last() == v {
            lemma_push_contains(rest, last, k);
        }
        if named_with(names, ivs, k, v) {
            let i = choose|i: int| 0 <= i < names.len() && names[i] == k && #[trigger] ivs[i] == v;
            if i < names.len() - 1 {
                assert(n0[i] == k && i0[i] == v);
            }
        }
        if named_with(n0, i0, k, v) {
            let i = choose|i: int| 0 <= i < n0.len() && n0[i] == k && #[trigger] i0[i] == v;
            assert(names[i] == k && ivs[i] == v);
        }
    }
}

proof fn lemma_due_names_member(sched: Seq<(u64, Seq<Seq<char>>)>, tick: u64, k: Seq<char>)
    ensures
        due_names(sched, tick).contains(k) <==> exists|g: int|
            0 <= g < sched.len() && divides_due((#[trigger] sched[g]).0, tick) && sched[g].1.contains(k),
    decreases sched.len(),
{
    if sched.len() > 0 {
        let init = sched.drop_last();
        lemma_due_names_member(init, tick, k);
        let rest = due_names(init, tick);
        let last = sched.last();
        if due_names(sched, tick).contains(k) {
            let j = choose|j: int| 0 <= j < due_names(sched, tick).len() && due_names(sched, tick)[j] == k;
            if divides_due(last.0, tick) && j >= rest.len() {
                assert(last.1[j - rest.len()] == k);
                assert(sched[sched.len() - 1] == last);
            } else {
                assert(rest[j] == k);
                let g = choose|g: int| 0 <= g < init.len() && divides_due((#[trigger] init[g]).0, tick) && init[g].1.contains(k);
                assert(sched[g] == init[g]);
            }
        }
        if exists|g: int| 0 <= g < sched.len() && divides_due((#[trigger] sched[g]).0, tick) && sched[g].1.contains(k) {
            let g = choose|g: int| 0 <= g < sched.len() && divides_due((#[trigger] sched[g]).0, tick) && sched[g].1.contains(k);
            if g < sched.len() - 1 {
                assert(init[g] == sched[g]);
                assert(rest.contains(k));
                let j = choose|j: int| 0 <= j < rest.len() && rest[j] == k;
                if divides_due(last.0, tick) {
                    assert(due_names(sched, tick)[j] == k);
                }
            } else {
                let j = choose|j: int| 0 <= j < last.1.len() && last.1[j] == k;
                assert(due_names(sched, tick)[rest.len() + j] == k);
            }
        }
    }
}

/// Schedule law: once the names are grouped by interval, a name is due at
/// a tick exactly when one of its entries has an interval that is due then.
/// In particular a name whose only interval is 0 is never due.
pub proof fn lemma_due_exactly(
    names: Seq<Seq<char>>,
    ivs: Seq<u64>,
    sched: Seq<(u64, Seq<Seq<char>>)>,
    tick: u64,
    k: Seq<char>,
)
    requires
        groups_names(names, ivs, sched),
    ensures
        due_names(sched, tick).contains(k) <==> exists|i: int|
            0 <= i < names.len() && names[i] == k && divides_due(#[trigger] ivs[i], tick),
{
    lemma_due_names_member(sched, tick, k);
    if due_names(sched, tick).contains(k) {
        let g = choose|g: int| 0 <= g < sched.len() && divides_due((#[trigger] sched[g]).0, tick) && sched[g].1.contains(k);
        lemma_names_with_interval_member(names, ivs, sched[g].0, k);
        let i = choose|i: int| 0 <= i < names.len() && names[i] == k && #[trigger] ivs[i] == sched[g].0;
        assert(divides_due(ivs[i], tick));
    }
    if exists|i: int| 0 <= i < names.len() && names[i] == k && divides_due(#[trigger] ivs[i], tick) {
        let i = choose|i: int| 0 <= i < names.len() && names[i] == k && divides_due(#[trigger] ivs[i], tick);
        assert(has_group(sched, ivs[i]));
        let g = choose|g: int| 0 <= g < sched.len() && (#[trigger] sched[g]).0 == ivs[i];
        lemma_names_with_interval_member(names, ivs, sched[g].0, k);
        assert(named_with(names, ivs, k, sched[g].0));
    }
}

fn contains_u64(v: &Vec<u64>, x: u64) -> (b: bool)
    ensures
        b == v@.contains(x),
{
    let mut i: usize = 0;
    while i < v.len()
        invariant
            i <= v@.len(),
            forall|j: int| 0 <= j < i ==> v@[j] != x,
        decreases v.len() - i,
    {
        if v[i] == x {
            return true;
        }
        i = i + 1;
    }
    false
}

/// Groups `names` by interval (`ivs[i]` is the interval of `names[i]`),
/// the groups in the order in which their interval first occurs.
pub fn group_by_interval(names: &Vec<String>, ivs: &Vec<u64>) -> (r: Vec<IntervalGroup>)
    requires
        names@.len() == ivs@.len(),
    ensures
        groups_names(string_views(names@), ivs@, schedule_of(r@)),
{
    let ghost keys = string_views(names@);
    let n = names.len();
    let mut distinct: Vec<u64> = Vec::new();
    let ghost mut wit: Seq<int> = Seq::empty();
    let mut i: usize = 0;
    while i < n
        invariant
            n == names@.len(),
            ivs@.len() == n,
            i <= n,
            distinct@.no_duplicates(),
            forall|j: int| 0 <= j < i ==> distinct@.contains(#[trigger] ivs@[j]),
            wit.len() == distinct@.len(),
            forall|g: int| 0 <= g < distinct@.len() ==> 0 <= #[trigger] wit[g] < i && distinct@[g] == ivs@[wit[g]],
        decreases n - i,
    {
        let v = ivs[i];
        let ghost old_d = distinct@;
        if !contains_u64(&distinct, v) {
            distinct.push(v);
            proof {
                wit = wit.push(i as int);
            }
        }
        proof {
            assert forall|j: int| 0 <= j < i + 1 implies distinct@.contains(#[trigger] ivs@[j]) by {
                if j < i {
                    assert(old_d.contains(ivs@[j]));
                    let p = choose|p: int| 0 <= p < old_d.len() && old_d[p] == ivs@[j];
                    assert(distinct@[p] == ivs@[j]);
                } else if old_d.contains(v) {
                    let p = choose|p: int| 0 <= p < old_d.len() && old_d[p] == v;
                    assert(distinct@[p] == ivs@[j]);
                } else {
                    assert(distinct@[old_d.len() as int] == v);
                }
            }
        }
        i = i + 1;
    }
    let mut groups: Vec<IntervalGroup> = Vec::new();
    let mut g: usize = 0;
    while g < distinct.len()
        invariant
            n == names@.len(),
            ivs@.len() == n,
            keys == string_views(names@),
            distinct@.no_duplicates(),
            forall|j: int| 0 <= j < n ==> distinct@.contains(#[trigger] ivs@[j]),
            wit.len() == distinct@.len(),
            forall|h: int| 0 <= h < distinct@.len() ==> 0 <= #[trigger] wit[h] < n && distinct@[h] == ivs@[wit[h]],
            g <= distinct@.len(),
            groups@.len() == g,
            forall|h: int| 0 <= h < g ==> (#[trigger] groups@[h]).interval == distinct@[h],
            forall|h: int| 0 <= h < g ==> string_views((#[trigger] groups@[h]).plugins@) == names_with_interval(keys, ivs@, distinct@[h]),
        decreases distinct.len() - g,
    {
        let v = distinct[g];
        let mut list: Vec<String> = Vec::new();
        let mut j: usize = 0;
        while j < n
            invariant
                n == names@.len(),
                ivs@.len() == n,
                keys == string_views(names@),
                j <= n,
                string_views(list@) == names_with_interval(keys.take(j as int), ivs@.take(j as int), v),
            decreases n - j,
        {
            assert(keys.take(j + 1).drop_last() =~= keys.take(j as int));
            assert(ivs@.take(j + 1).drop_last() =~= ivs@.take(j as int));
            assert(keys.take(j + 1).last() == keys[j as int]);
            assert(ivs@.take(j + 1).last() == ivs@[j as int]);
            if ivs[j] == v {
                let ghost prev = list@;
                let name = names[j].clone();
                list.push(name);
                assert(string_views(list@) =~= string_views(prev).push(name@));
            }
            j = j + 1;
        }
        assert(keys.take(n as int) =~= keys);
        assert(ivs@.take(n as int) =~= ivs@);
        groups.push(IntervalGroup { interval: v, plugins: list });
        g = g + 1;
    }
    proof {
        let sched = schedule_of(groups@);
        assert(sched.len() == distinct@.len());
        assert forall|h: int| 0 <= h < sched.len() implies (#[trigger] sched[h]).1 == names_with_interval(keys, ivs@, sched[h].0) by {
            assert(sched[h] == (groups@[h].interval, string_views(groups@[h].plugins@)));
        }
        assert forall|a: int, b: int| 0 <= a < b < sched.len() implies (#[trigger] sched[a]).0 != (#[trigger] sched[b]).0 by {
            assert(sched[a].0 == groups@[a].interval);
            assert(sched[b].0 == groups@[b].interval);
            assert(distinct@[a] != distinct@[b]);
        }
        assert forall|x: int| 0 <= x < ivs@.len() implies has_group(sched, #[trigger] ivs@[x]) by {
            assert(distinct@.contains(ivs@[x]));
            let h = choose|h: int| 0 <= h < distinct@.len() && distinct@[h] == ivs@[x];
            assert(sched[h].0 == groups@[h].interval);
        }
        assert forall|h: int| 0 <= h < sched.len() implies interval_occurs(ivs@, (#[trigger] sched[h]).0) by {
            let x = wit[h];
            assert(sched[h].0 == groups@[h].interval);
            assert(ivs@[x] == sched[h].0);
        }
    }
    groups
}

/// The names of the groups due at `tick`, group after group.
pub fn due_in(groups: &Vec<IntervalGroup>, tick: u64) -> (r: Vec<String>)
    ensures
        string_views(r@) == due_names(schedule_of(groups@), tick),
{
    let ghost sched = schedule_of(groups@);
    let mut r: Vec<String> = Vec::new();
    let mut g: usize = 0;
    while g < groups.len()
        invariant
            sched == schedule_of(groups@),
            g <= groups@.len(),
            string_views(r@) == due_names(sched.take(g as int), tick),
        decreases groups.len() - g,
    {
        let group = &groups[g];
        assert(sched.take(g + 1).drop_last() =~= sched.take(g as int));
        assert(sched.take(g + 1).last() == sched[g as int]);
        if group.interval > 0 && tick % group.interval == 0 {
            let ghost before = r@;
            let mut j: usize = 0;
            while j < group.plugins.len()
                invariant
                    j <= group.plugins@.len(),
                    string_views(r@) == string_views(before) + string_views(group.plugins@).take(j as int),
                decreases group.plugins.len() - j,
            {
                let ghost prev = r@;
                let name = group.plugins[j].clone();
                assert(name@ == group.plugins@[j as int]@);
                r.push(name);
                assert(string_views(r@) =~= string_views(prev).push(name@));
                assert(string_views(group.plugins@).take(j + 1) =~= string_views(group.plugins@).take(j as int).push(name@));
                j = j + 1;
            }
            assert(string_views(group.plugins@).take(j as int) =~= string_views(group.plugins@));
        }
        g = g + 1;
    }
    assert(sched.take(g as int) =~= sched);
    r
}

/// The counter after `counter` in a cycle `1, 2, ..., max, 1, ...`.
pub open spec fn spec_next_counter(counter: u64, max: u64) -> u64 {
    if counter >= max {
        1
    } else {
        (counter + 1) as u64
    }
}

/// The reporter loop's counter after `counter`: one more, back to 1 once
/// it passes `max`.
pub fn next_counter(counter: u64, max: u64) -> (r: u64)
    ensures
        r == spec_next_counter(counter, max),
{
    if counter >= max {
        1
    } else {
        counter + 1
    }
}

/// Counter law: from any counter up to `max` (the loop starts from 0 or
/// 1), the next counter is in `1..=max`; so the counter cycles through
/// `1..=max`.
pub proof fn lemma_counter_in_cycle(counter: u64, max: u64)
    requires
        max >= 1,
        counter <= max,
    ensures
        1 <= spec_next_counter(counter, max) <= max,
{
}

} // verus!
