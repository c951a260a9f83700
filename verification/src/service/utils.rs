//! Where the service looks for its configuration file.
use vstd::prelude::*;

verus! {

/// `std::path::Path::exists`: whether a file is at `path`. Nothing is
/// claimed of the answer: it depends on the file system.
#[verifier::external_body]
fn path_exists(path: &str) -> (b: bool) {
    std::path::Path::new(path).exists()
}

/// The places a configuration file is looked for, in order.
pub open spec fn config_locations() -> Seq<Seq<char>> {
    seq!["psistats.conf"@, "~/.psistats.conf"@, "/etc/psistats.conf"@]
}

/// The first of the usual configuration file locations whose file exists,
/// given whether a file is at the local (`local`), the home (`home`) and
/// the system (`system`) location.
pub fn first_config_location(local: bool, home: bool, system: bool) -> (r: Option<&'static str>)
    ensures
        local ==> (r matches Some(l) && l@ == config_locations()[0]),
        !local && home ==> (r matches Some(l) && l@ == config_locations()[1]),
        !local && !home && system ==> (r matches Some(l) && l@ == config_locations()[2]),
        !local && !home && !system ==> r is None,
{
    if local {
        Some("psistats.conf")
    } else if home {
        Some("~/.psistats.conf")
    } else if system {
        Some("/etc/psistats.conf")
    } else {
        None
    }
}

/// The first of the usual configuration file locations where a file
/// exists, if any.
pub fn get_config_location() -> (r: Option<&'static str>)
    ensures
        r matches Some(l) ==> config_locations().contains(l@),
{
    let local = path_exists("psistats.conf");
    let home = path_exists("~/.psistats.conf");
    let system = path_exists("/etc/psistats.conf");
    let r = first_config_location(local, home, system);
    proof {
        if r is Some {
            let l = r.unwrap();
            if local {
                assert(config_locations()[0] == l@);
            } else if home {
                assert(config_locations()[1] == l@);
            } else {
                assert(config_locations()[2] == l@);
            }
        }
    }
    r
}

} // verus!
