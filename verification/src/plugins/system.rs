//! The reports of the memory and operating system plugins, from what the
//! system told them.
use vstd::prelude::*;
use crate::table::NamedTable;
use crate::libpsistats::reports::ReportValue;

verus! {

/// The memory report: total, free, available and used memory, in that
/// order.
pub fn memory_report(total: u64, free: u64, available: u64, used: u64) -> (r: ReportValue)
    ensures
        r matches ReportValue::Array(v) && v@ == seq![
            ReportValue::Integer(total),
            ReportValue::Integer(free),
            ReportValue::Integer(available),
            ReportValue::Integer(used),
        ],
{
    let mut msg: Vec<ReportValue> = Vec::new();
    msg.push(ReportValue::Integer(total));
    msg.push(ReportValue::Integer(free));
    msg.push(ReportValue::Integer(available));
    msg.push(ReportValue::Integer(used));
    assert(msg@ =~= seq![
        ReportValue::Integer(total),
        ReportValue::Integer(free),
        ReportValue::Integer(available),
        ReportValue::Integer(used),
    ]);
    ReportValue::Array(msg)
}

pub open spec fn is_string_value(v: ReportValue, s: Seq<char>) -> bool {
    v matches ReportValue::String(t) && t@ == s
}

/// The operating system report: an object with the system's type, version,
/// codename, edition and bitness under those names.
pub fn os_report(os_type: String, version: String, codename: String, edition: String, bitness: String) -> (r: ReportValue)
    ensures
        r matches ReportValue::Object(t) && t.keys() == seq!["type"@, "version"@, "codename"@, "edition"@, "bitness"@]
            && is_string_value(t.values()[0], os_type@)
            && is_string_value(t.values()[1], version@)
            && is_string_value(t.values()[2], codename@)
            && is_string_value(t.values()[3], edition@)
            && is_string_value(t.values()[4], bitness@),
{
    proof {
        reveal_strlit("type");
        reveal_strlit("version");
        reveal_strlit("codename");
        reveal_strlit("edition");
        reveal_strlit("bitness");
    }
    let mut t: NamedTable<ReportValue> = NamedTable::new();
    t.insert(String::from_str("type"), ReportValue::String(os_type));
    assert(t.keys() =~= seq!["type"@]);
    assert("type"@.len() == 4 && "version"@.len() == 7 && "codename"@.len() == 8);
    assert(!t.has("version"@)) by {
        assert(t.keys()[0] != "version"@);
    }
    t.insert(String::from_str("version"), ReportValue::String(version));
    assert(t.keys() =~= seq!["type"@, "version"@]);
    assert(!t.has("codename"@)) by {
        assert(t.keys()[0] != "codename"@);
        assert(t.keys()[1] != "codename"@);
    }
    t.insert(String::from_str("codename"), ReportValue::String(codename));
    assert(t.keys() =~= seq!["type"@, "version"@, "codename"@]);
    assert(!t.has("edition"@)) by {
        assert("edition"@[0] == 'e' && "version"@[0] == 'v');
        assert(t.keys()[0] != "edition"@);
        assert(t.keys()[1] != "edition"@);
        assert(t.keys()[2] != "edition"@);
    }
    t.insert(String::from_str("edition"), ReportValue::String(edition));
    assert(t.keys() =~= seq!["type"@, "version"@, "codename"@, "edition"@]);
    assert(!t.has("bitness"@)) by {
        assert("bitness"@[0] == 'b' && "edition"@.len() == 7 && "bitness"@.len() == 7);
        assert(t.keys()[0] != "bitness"@);
        assert(t.keys()[1] != "bitness"@);
        assert(t.keys()[2] != "bitness"@);
        assert(t.keys()[3] != "bitness"@);
    }
    t.insert(String::from_str("bitness"), ReportValue::String(bitness));
    assert(t.keys() =~= seq!["type"@, "version"@, "codename"@, "edition"@, "bitness"@]);
    ReportValue::Object(t)
}

} // verus!
