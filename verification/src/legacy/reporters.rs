//! Reports of the built-in reporters, and how they are written as JSON.
use vstd::prelude::*;
use crate::text::{owned, starts_with_char, str_eq, parse_unsigned, spec_parse_unsigned};
use crate::config_value::ConfigTable;

verus! {

#[derive(Debug, Clone)]
pub struct ReporterError;

impl ReporterError {
    /// The text that describes this error.
    pub fn message(&self) -> (m: String)
        ensures
            m@ == "An error occurred with the reporter"@,
    {
        String::from_str("An error occurred with the reporter")
    }
}

/// The built-in reporters.
#[derive(Debug, Clone, Copy, PartialEq, Eq, Structural)]
pub enum ReporterKind {
    Cpu,
    Mem,
    IpAddrs,
    Os,
}

/// The built-in reporter named `id`.
pub open spec fn spec_get_reporter(id: Seq<char>) -> Option<ReporterKind> {
    if id == "cpu"@ {
        Some(ReporterKind::Cpu)
    } else if id == "mem"@ {
        Some(ReporterKind::Mem)
    } else if id == "ip_addrs"@ {
        Some(ReporterKind::IpAddrs)
    } else if id == "os"@ {
        Some(ReporterKind::Os)
    } else {
        None
    }
}

/// The built-in reporter named `id`, if there is one.
pub fn get_reporter(id: String) -> (r: Option<ReporterKind>)
    ensures
        r == spec_get_reporter(id@),
{
    let s = id.as_str();
    if str_eq(s, "cpu") {
        Some(ReporterKind::Cpu)
    } else if str_eq(s, "mem") {
        Some(ReporterKind::Mem)
    } else if str_eq(s, "ip_addrs") {
        Some(ReporterKind::IpAddrs)
    } else if str_eq(s, "os") {
        Some(ReporterKind::Os)
    } else {
        None
    }
}

/// A report: the reporter's id and its value as text.
pub struct Report {
    pub id: String,
    pub value: String,
}

/// How a report value is written in JSON: as it is where it is already an
/// object or array (starts with `{` or `[`) or reads as an unsigned number,
/// otherwise in double quotes.
pub open spec fn json_value(v: Seq<char>) -> Seq<char> {
    if (v.len() > 0 && (v[0] == '{' || v[0] == '[')) || spec_parse_unsigned(v, u64::MAX as nat) is Some {
        v
    } else {
        "\""@ + v + "\""@
    }
}

/// The JSON form of a report.
pub open spec fn report_json(id: Seq<char>, value: Seq<char>) -> Seq<char> {
    "{\"id\": \""@ + id + "\", \"value\": "@ + json_value(value) + "}"@
}

impl Report {
    pub fn new(id: String, value: String) -> (r: Self)
        ensures
            r.id == id,
            r.value == value,
    {
        Report { id: id, value: value }
    }

    /// The report as JSON: see [`Report::to_json`].
    pub fn to_string(&self) -> (s: String)
        ensures
            s@ == report_json(self.id@, self.value@),
    {
        self.to_json()
    }

    /// The report as a JSON object with the fields `id` and `value`.
    pub fn to_json(&self) -> (s: String)
        ensures
            s@ == report_json(self.id@, self.value@),
    {
        let v = self.value.as_str();
        let json_value: String;
        if starts_with_char(v, '{') || starts_with_char(v, '[') {
            json_value = owned(v);
        } else if parse_unsigned(v, u64::MAX).is_some() {
            json_value = owned(v);
        } else {
            json_value = String::from_str("\"").concat(v).concat("\"");
        }
        String::from_str("{\"id\": \"").concat(self.id.as_str()).concat("\", \"value\": ").concat(json_value.as_str()).concat("}")
    }
}

/// The ping-pong reporter: always the text `"pong"`.
pub fn pingpong_reporter(_conf: &ConfigTable) -> (r: Report)
    ensures
        r.id@ == "pingpong"@,
        r.value@ == "\"pong\""@,
{
    Report::new(String::from_str("pingpong"), String::from_str("\"pong\""))
}

/// The character of the decimal digit `d`.
pub open spec fn digit_char(d: nat) -> char {
    (48 + d) as char
}

/// The decimal digits of `n`, without leading zeros.
pub open spec fn decimal(n: nat) -> Seq<char>
    decreases n,
{
    if n < 10 {
        seq![digit_char(n)]
    } else {
        decimal(n / 10).push(digit_char(n % 10))
    }
}

/// The numbers `v` in decimal, separated by commas.
pub open spec fn joined_numbers(v: Seq<u64>) -> Seq<char>
    decreases v.len(),
{
    if v.len() == 0 {
        Seq::empty()
    } else if v.len() == 1 {
        decimal(v[0] as nat)
    } else {
        joined_numbers(v.drop_last()) + ","@ + decimal(v.last() as nat)
    }
}

/// What `serde_json::to_string` writes for a list of unsigned numbers: the
/// numbers in decimal, separated by commas, in square brackets.
pub open spec fn json_number_list(v: Seq<u64>) -> Seq<char> {
    "["@ + joined_numbers(v) + "]"@
}

/// What `serde_json::to_string` writes for a list of strings.
pub uninterp spec fn spec_json_strings(v: Seq<Seq<char>>) -> Seq<char>;

/// What `serde_json::to_string` writes for a list of pairs of strings.
pub uninterp spec fn spec_json_string_pairs(v: Seq<(Seq<char>, Seq<char>)>) -> Seq<char>;

pub open spec fn pair_views(v: Seq<(String, String)>) -> Seq<(Seq<char>, Seq<char>)> {
    v.map_values(|p: (String, String)| (p.0@, p.1@))
}

/// `serde_json::to_string` on a list of unsigned numbers. It does not fail
/// on such a list; its compact formatter writes `[`, each number in
/// decimal (through `itoa`) with commas between them, and `]`.
#[verifier::external_body]
fn json_numbers(v: &Vec<u64>) -> (r: String)
    ensures
        r@ == json_number_list(v@),
{
    serde_json::to_string(v).unwrap()
}

/// `serde_json::to_string` on a list of strings. It does not fail on such
/// a list, and its text depends on the strings alone.
#[verifier::external_body]
fn json_strings(v: &Vec<String>) -> (r: String)
    ensures
        r@ == spec_json_strings(crate::schedule::string_views(v@)),
{
    serde_json::to_string(v).unwrap()
}

/// `serde_json::to_string` on a list of pairs of strings, each written as
/// an array of two. It does not fail on such a list, and its text depends
/// on the strings alone.
#[verifier::external_body]
fn json_string_pairs(v: &Vec<(String, String)>) -> (r: String)
    ensures
        r@ == spec_json_string_pairs(pair_views(v@)),
{
    serde_json::to_string(v).unwrap()
}

/// The memory reporter's report: the total and the free memory, as a JSON
/// list.
pub fn mem_reporter(total: u64, free: u64) -> (r: Report)
    ensures
        r.id@ == "mem"@,
        r.value@ == "["@ + decimal(total as nat) + ","@ + decimal(free as nat) + "]"@,
{
    let mut msg: Vec<u64> = Vec::new();
    msg.push(total);
    msg.push(free);
    assert(msg@ =~= seq![total, free]);
    assert(msg@.drop_last() =~= seq![total]);
    assert(joined_numbers(msg@.drop_last()) == decimal(total as nat));
    assert(joined_numbers(msg@) == decimal(total as nat) + ","@ + decimal(free as nat));
    Report::new(String::from_str("mem"), json_numbers(&msg))
}

/// The operating system reporter's report: the system's type and version,
/// as a JSON list.
pub fn os_reporter(os_type: String, version: String) -> (r: Report)
    ensures
        r.id@ == "os"@,
        r.value@ == spec_json_strings(seq![os_type@, version@]),
{
    let ghost t = os_type@;
    let ghost v = version@;
    let mut msg: Vec<String> = Vec::new();
    msg.push(os_type);
    msg.push(version);
    assert(crate::schedule::string_views(msg@) =~= seq![t, v]);
    Report::new(String::from_str("os"), json_strings(&msg))
}

/// The network address reporter's report: each interface's name with its
/// address, as a JSON list of pairs.
pub fn ip_addrs_reporter(ips: &Vec<(String, String)>) -> (r: Report)
    ensures
        r.id@ == "ip_addrs"@,
        r.value@ == spec_json_string_pairs(pair_views(ips@)),
{
    Report::new(String::from_str("ip_addrs"), json_string_pairs(ips))
}

} // verus!
