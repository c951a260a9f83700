//! The sensors plugin: which readings it reports, under which names.
use vstd::prelude::*;
use crate::table::NamedTable;
use crate::config_value::{ConfigTable, ConfigValue};
use crate::libpsistats::config::PluginSettings;
use crate::libpsistats::reports::ReportValue;
use crate::schedule::string_views;

verus! {

/// One reading of a sensor: its name and value (a float, by its bit
/// pattern).
pub struct SensorReading {
    pub name: String,
    pub value: u64,
}

/// What the sensors plugin was configured with: the sensor names to report
/// (all where empty) and the names to report some sensors under.
pub struct SensorSettings {
    pub includes: Vec<String>,
    pub mapping: NamedTable<String>,
}

/// Whether `v` is a string.
pub open spec fn is_string(v: ConfigValue) -> bool {
    v is String
}

/// Whether `v` is an array whose first two elements are strings.
pub open spec fn is_pair(v: ConfigValue) -> bool {
    &&& v is Array
    &&& v->Array_0@.len() >= 2
    &&& v->Array_0@[0] is String
    &&& v->Array_0@[1] is String
}

/// Whether the plugin's configuration is one the sensors plugin reads: an
/// `includes` entry, if any, is an array of strings, and a `mapping` entry,
/// if any, is an array of pairs of strings.
pub open spec fn sensor_config_ok(conf: ConfigTable) -> bool {
    &&& conf.lookup("includes"@) matches Some(v) ==> (v is Array && forall|i: int| 0 <= i < v->Array_0@.len() ==> is_string(#[trigger] v->Array_0@[i]))
    &&& conf.lookup("mapping"@) matches Some(v) ==> (v is Array && forall|i: int| 0 <= i < v->Array_0@.len() ==> is_pair(#[trigger] v->Array_0@[i]))
}

fn all_strings(a: &Vec<ConfigValue>) -> (b: bool)
    ensures
        b == forall|i: int| 0 <= i < a@.len() ==> is_string(#[trigger] a@[i]),
{
    let mut i: usize = 0;
    while i < a.len()
        invariant
            i <= a@.len(),
            forall|j: int| 0 <= j < i ==> is_string(#[trigger] a@[j]),
        decreases a.len() - i,
    {
        if a[i].as_str().is_none() {
            assert(!is_string(a@[i as int]));
            return false;
        }
        i = i + 1;
    }
    true
}

fn all_pairs(a: &Vec<ConfigValue>) -> (b: bool)
    ensures
        b == forall|i: int| 0 <= i < a@.len() ==> is_pair(#[trigger] a@[i]),
{
    let mut i: usize = 0;
    while i < a.len()
        invariant
            i <= a@.len(),
            forall|j: int| 0 <= j < i ==> is_pair(#[trigger] a@[j]),
        decreases a.len() - i,
    {
        let ok = match a[i].as_array() {
            Some(p) => p.len() >= 2 && p[0].as_str().is_some() && p[1].as_str().is_some(),
            None => false,
        };
        if !ok {
            assert(!is_pair(a@[i as int]));
            return false;
        }
        i = i + 1;
    }
    true
}

/// Whether the configuration is one [`SensorSettings::init`] reads.
pub fn check_sensor_config(conf: &ConfigTable) -> (b: bool)
    ensures
        b == sensor_config_ok(*conf),
{
    let includes_ok = match conf.get("includes") {
        Some(v) => match v.as_array() {
            Some(a) => all_strings(a),
            None => false,
        },
        None => true,
    };
    let mapping_ok = match conf.get("mapping") {
        Some(v) => match v.as_array() {
            Some(a) => all_pairs(a),
            None => false,
        },
        None => true,
    };
    includes_ok && mapping_ok
}

/// The strings of an array of strings.
pub open spec fn strings_of(a: Seq<ConfigValue>) -> Seq<Seq<char>> {
    a.map_values(|v: ConfigValue| v->String_0@)
}

/// The includes after reading the configuration `conf`.
pub open spec fn includes_after(includes: Seq<Seq<char>>, conf: ConfigTable) -> Seq<Seq<char>> {
    match conf.lookup("includes"@) {
        Some(v) => includes + strings_of(v->Array_0@),
        None => includes,
    }
}

/// The mapping after registering each pair of `pairs`, in order.
pub open spec fn map_pairs(m: Map<Seq<char>, Seq<char>>, pairs: Seq<ConfigValue>) -> Map<Seq<char>, Seq<char>>
    decreases pairs.len(),
{
    if pairs.len() == 0 {
        m
    } else {
        let p = pairs.last()->Array_0@;
        map_pairs(m, pairs.drop_last()).insert(p[0]->String_0@, p[1]->String_0@)
    }
}

/// The mapping after reading the configuration `conf`.
pub open spec fn mapping_after(m: Map<Seq<char>, Seq<char>>, conf: ConfigTable) -> Map<Seq<char>, Seq<char>> {
    match conf.lookup("mapping"@) {
        Some(v) => map_pairs(m, v->Array_0@),
        None => m,
    }
}

pub open spec fn string_map(t: NamedTable<String>) -> Map<Seq<char>, Seq<char>> {
    t.as_map().map_values(|s: String| s@)
}

/// The name a sensor is reported under.
pub open spec fn reported_name(mapping: Map<Seq<char>, Seq<char>>, name: Seq<char>) -> Seq<char> {
    if mapping.contains_key(name) {
        mapping[name]
    } else {
        name
    }
}

/// The readings that are reported, each with the name it is reported
/// under: all readings where `includes` is empty, else those whose
/// reported name is included; in order.
pub open spec fn selected(
    readings: Seq<(Seq<char>, u64)>,
    includes: Seq<Seq<char>>,
    mapping: Map<Seq<char>, Seq<char>>,
) -> Seq<(Seq<char>, u64)>
    decreases readings.len(),
{
    if readings.len() == 0 {
        Seq::empty()
    } else {
        let rest = selected(readings.drop_last(), includes, mapping);
        let name = reported_name(mapping, readings.last().0);
        if includes.len() == 0 || includes.contains(name) {
            rest.push((name, readings.last().1))
        } else {
            rest
        }
    }
}

/// Selection law: with no includes every reading is reported, in order,
/// each value unchanged; with includes, every reported name is one of
/// them.
pub proof fn lemma_selection(
    readings: Seq<(Seq<char>, u64)>,
    includes: Seq<Seq<char>>,
    mapping: Map<Seq<char>, Seq<char>>,
)
    ensures
        includes.len() == 0 ==> selected(readings, includes, mapping).len() == readings.len(),
        includes.len() == 0 ==> forall|i: int| 0 <= i < readings.len() ==> #[trigger] selected(readings, includes, mapping)[i]
            == (reported_name(mapping, readings[i].0), readings[i].1),
        includes.len() > 0 ==> forall|i: int| 0 <= i < selected(readings, includes, mapping).len() ==> includes.contains(
            #[trigger] selected(readings, includes, mapping)[i].0,
        ),
    decreases readings.len(),
{
    if readings.len() > 0 {
        let init = readings.drop_last();
        lemma_selection(init, includes, mapping);
        let rest = selected(init, includes, mapping);
        if includes.len() == 0 {
            assert forall|i: int| 0 <= i < readings.len() implies #[trigger] selected(readings, includes, mapping)[i]
                == (reported_name(mapping, readings[i].0), readings[i].1) by {
                if i < init.len() {
                    assert(selected(readings, includes, mapping)[i] == rest[i]);
                    assert(init[i] == readings[i]);
                }
            }
        } else {
            assert forall|i: int| 0 <= i < selected(readings, includes, mapping).len() implies includes.contains(
                #[trigger] selected(readings, includes, mapping)[i].0,
            ) by {
                if i < rest.len() {
                    assert(selected(readings, includes, mapping)[i] == rest[i]);
                }
            }
        }
    }
}

/// A reading under the name it is reported under.
pub open spec fn renamed(mapping: Map<Seq<char>, Seq<char>>, r: (Seq<char>, u64)) -> (Seq<char>, u64) {
    (reported_name(mapping, r.0), r.1)
}

/// Whether a reading reported under `name` is selected: always where no
/// include is configured, else where `name` is included.
pub open spec fn is_selected(includes: Seq<Seq<char>>, name: Seq<char>) -> bool {
    includes.len() == 0 || includes.contains(name)
}

/// Renaming by the mapping, as a function.
pub open spec fn renamer(mapping: Map<Seq<char>, Seq<char>>) -> spec_fn((Seq<char>, u64)) -> (Seq<char>, u64) {
    |r: (Seq<char>, u64)| renamed(mapping, r)
}

/// Selection by the includes, as a predicate on renamed readings.
pub open spec fn selector(includes: Seq<Seq<char>>) -> spec_fn((Seq<char>, u64)) -> bool {
    |p: (Seq<char>, u64)| is_selected(includes, p.0)
}

/// Filter law: the report is the readings, each renamed by the mapping,
/// with those whose name is not selected left out, each reading decided on
/// its own, in order.
pub proof fn lemma_selection_is_filter(
    readings: Seq<(Seq<char>, u64)>,
    includes: Seq<Seq<char>>,
    mapping: Map<Seq<char>, Seq<char>>,
)
    ensures
        selected(readings, includes, mapping) == readings.map_values(renamer(mapping)).filter(selector(includes)),
    decreases readings.len(),
{
    let f = renamer(mapping);
    let pred = selector(includes);
    let m = readings.map_values(f);
    reveal(Seq::filter);
    if readings.len() == 0 {
        assert(m =~= Seq::<(Seq<char>, u64)>::empty());
        assert(m.filter(pred) == m);
    } else {
        lemma_selection_is_filter(readings.drop_last(), includes, mapping);
        assert(m.drop_last() =~= readings.drop_last().map_values(f));
        assert(m.last() == f(readings.last()));
        assert(m.last() == renamed(mapping, readings.last()));
        assert(pred(m.last()) == is_selected(includes, reported_name(mapping, readings.last().0)));
        assert(m.filter(pred) == (if pred(m.last()) {
            m.drop_last().filter(pred).push(m.last())
        } else {
            m.drop_last().filter(pred)
        }));
    }
}

/// Completeness law: every reading whose reported name is selected is in
/// the report, under that name and with its value, whatever the other
/// readings are.
pub proof fn lemma_selected_reading_reported(
    readings: Seq<(Seq<char>, u64)>,
    includes: Seq<Seq<char>>,
    mapping: Map<Seq<char>, Seq<char>>,
    i: int,
)
    requires
        0 <= i < readings.len(),
        is_selected(includes, reported_name(mapping, readings[i].0)),
    ensures
        selected(readings, includes, mapping).contains((reported_name(mapping, readings[i].0), readings[i].1)),
{
    let f = renamer(mapping);
    let pred = selector(includes);
    lemma_selection_is_filter(readings, includes, mapping);
    let m = readings.map_values(f);
    assert(m[i] == (reported_name(mapping, readings[i].0), readings[i].1));
    m.lemma_filter_contains(pred, i);
}

/// Whether `v` is the report `[name, value]` of one reading.
pub open spec fn is_reading_report(v: ReportValue, r: (Seq<char>, u64)) -> bool {
    &&& v is Array
    &&& v->Array_0@.len() == 2
    &&& v->Array_0@[0] matches ReportValue::String(s) && s@ == r.0
    &&& v->Array_0@[1] == ReportValue::Float(r.1)
}

/// Whether `v` is the array of the reports of `rs`, in order.
pub open spec fn is_readings_report(v: ReportValue, rs: Seq<(Seq<char>, u64)>) -> bool {
    &&& v is Array
    &&& v->Array_0@.len() == rs.len()
    &&& forall|i: int| 0 <= i < rs.len() ==> is_reading_report(#[trigger] v->Array_0@[i], rs[i])
}

pub open spec fn reading_views(rs: Seq<SensorReading>) -> Seq<(Seq<char>, u64)> {
    rs.map_values(|r: SensorReading| (r.name@, r.value))
}

impl SensorSettings {
    /// Nothing included, nothing mapped.
    pub fn new() -> (s: Self)
        ensures
            s.includes@.len() == 0,
            string_map(s.mapping) == Map::<Seq<char>, Seq<char>>::empty(),
    {
        let s = SensorSettings { includes: Vec::new(), mapping: NamedTable::new() };
        assert(string_map(s.mapping) =~= Map::<Seq<char>, Seq<char>>::empty());
        s
    }

    /// Adds the includes and mappings of the plugin's configuration.
    pub fn init(&mut self, settings: &PluginSettings)
        requires
            sensor_config_ok(settings.config()),
        ensures
            string_views(final(self).includes@) == includes_after(string_views(old(self).includes@), settings.config()),
            string_map(final(self).mapping) == mapping_after(string_map(old(self).mapping), settings.config()),
    {
        let conf = settings.get_config();
        let ghost inc0 = string_views(self.includes@);
        match conf.get("includes") {
            Some(v) => {
                let arr = v.as_array().unwrap();
                let mut i: usize = 0;
                while i < arr.len()
                    invariant
                        i <= arr@.len(),
                        forall|j: int| 0 <= j < arr@.len() ==> is_string(#[trigger] arr@[j]),
                        string_views(self.includes@) == inc0 + strings_of(arr@.take(i as int)),
                        self.mapping == old(self).mapping,
                    decreases arr.len() - i,
                {
                    assert(is_string(arr@[i as int]));
                    let s = arr[i].as_str().unwrap();
                    let ghost prev = self.includes@;
                    self.includes.push(s.clone());
                    assert(string_views(self.includes@) =~= string_views(prev).push(s@));
                    assert(strings_of(arr@.take(i + 1)) =~= strings_of(arr@.take(i as int)).push(arr@[i as int]->String_0@));
                    i = i + 1;
                }
                assert(arr@.take(i as int) =~= arr@);
            },
            None => {},
        }
        let ghost m0 = string_map(self.mapping);
        let ghost inc1 = self.includes@;
        assert(string_views(inc1) == includes_after(inc0, settings.config()));
        match conf.get("mapping") {
            Some(v) => {
                let arr = v.as_array().unwrap();
                let mut i: usize = 0;
                while i < arr.len()
                    invariant
                        i <= arr@.len(),
                        forall|j: int| 0 <= j < arr@.len() ==> is_pair(#[trigger] arr@[j]),
                        string_map(self.mapping) == map_pairs(m0, arr@.take(i as int)),
                        self.includes@ == inc1,
                    decreases arr.len() - i,
                {
                    assert(is_pair(arr@[i as int]));
                    let pair = arr[i].as_array().unwrap();
                    let from = pair[0].as_str().unwrap();
                    let to = pair[1].as_str().unwrap();
                    let ghost before = string_map(self.mapping);
                    let key = from.clone();
                    let val = to.clone();
                    self.mapping.insert(key, val);
                    assert(string_map(self.mapping) =~= before.insert(from@, to@));
                    assert(arr@.take(i + 1).drop_last() =~= arr@.take(i as int));
                    assert(arr@.take(i + 1).last() == arr@[i as int]);
                    assert(pair@[0]->String_0@ == from@);
                    assert(string_map(self.mapping) =~= map_pairs(m0, arr@.take(i + 1)));
                    i = i + 1;
                }
                assert(arr@.take(i as int) =~= arr@);
            },
            None => {},
        }
    }

    /// Whether `name` is one of the included names.
    fn is_included(&self, name: &str) -> (b: bool)
        ensures
            b == string_views(self.includes@).contains(name@),
    {
        let mut i: usize = 0;
        while i < self.includes.len()
            invariant
                i <= self.includes@.len(),
                forall|j: int| 0 <= j < i ==> (#[trigger] self.includes@[j])@ != name@,
            decreases self.includes.len() - i,
        {
            if crate::text::str_eq(self.includes[i].as_str(), name) {
                assert(string_views(self.includes@)[i as int] == name@);
                return true;
            }
            i = i + 1;
        }
        proof {
            if string_views(self.includes@).contains(name@) {
                let j = choose|j: int| 0 <= j < string_views(self.includes@).len() && string_views(self.includes@)[j] == name@;
                assert(self.includes@[j]@ == name@);
            }
        }
        false
    }

    /// The report of the readings: `[name, value]` for each reading that
    /// is reported, under the name it is reported under.
    pub fn get_report(&self, readings: &Vec<SensorReading>) -> (r: ReportValue)
        ensures
            is_readings_report(r, selected(reading_views(readings@), string_views(self.includes@), string_map(self.mapping))),
    {
        let ghost inc = string_views(self.includes@);
        let ghost map = string_map(self.mapping);
        let ghost rv = reading_views(readings@);
        let mut out: Vec<ReportValue> = Vec::new();
        let mut i: usize = 0;
        while i < readings.len()
            invariant
                i <= readings@.len(),
                inc == string_views(self.includes@),
                map == string_map(self.mapping),
                rv == reading_views(readings@),
                is_readings_report(ReportValue::Array(out), selected(rv.take(i as int), inc, map)),
            decreases readings.len() - i,
        {
            let reading = &readings[i];
            assert(rv.take(i + 1).drop_last() =~= rv.take(i as int));
            assert(rv.take(i + 1).last() == rv[i as int]);
            let name = match self.mapping.get(reading.name.as_str()) {
                Some(mapped) => {
                    assert(map.contains_key(reading.name@));
                    mapped.clone()
                },
                None => {
                    assert(!map.contains_key(reading.name@));
                    reading.name.clone()
                },
            };
            assert(name@ == reported_name(map, rv[i as int].0));
            if self.includes.len() == 0 || self.is_included(name.as_str()) {
                let ghost prev = out@;
                let ghost sel = selected(rv.take(i as int), inc, map);
                let mut pair: Vec<ReportValue> = Vec::new();
                pair.push(ReportValue::String(name));
                pair.push(ReportValue::Float(reading.value));
                out.push(ReportValue::Array(pair));
                assert forall|j: int| 0 <= j < sel.len() + 1 implies is_reading_report(#[trigger] out@[j], sel.push((reported_name(map, rv[i as int].0), rv[i as int].1))[j]) by {
                    if j < sel.len() {
                        assert(out@[j] == prev[j]);
                    }
                }
            }
            i = i + 1;
        }
        assert(rv.take(i as int) =~= rv);
        ReportValue::Array(out)
    }
}

/// The name of a sensor of the Linux sensors library: `/chip/feature/sub`.
pub fn sensor_path(chip: &str, feature: &str, subfeature: &str) -> (r: String)
    ensures
        r@ == "/"@ + chip@ + "/"@ + feature@ + "/"@ + subfeature@,
{
    String::from_str("/").concat(chip).concat("/").concat(feature).concat("/").concat(subfeature)
}

} // verus!
