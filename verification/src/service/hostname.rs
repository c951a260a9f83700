//! The name under which the service reports.
use vstd::prelude::*;

verus! {

/// What `str::to_lowercase` makes of a string.
pub uninterp spec fn spec_lowercase(s: Seq<char>) -> Seq<char>;

/// `str::to_lowercase`: the lowercase form of `s`, as a function of `s`
/// alone.
#[verifier::external_body]
fn lowercase(s: &str) -> (r: String)
    ensures
        r@ == spec_lowercase(s@),
{
    s.to_lowercase()
}

/// `gethostname::gethostname`: the name of this machine, where it is valid
/// UTF-8. Nothing is claimed of it: it depends on the machine.
#[verifier::external_body]
fn system_hostname() -> (r: Option<String>) {
    gethostname::gethostname().into_string().ok()
}

/// The host name to report under: the configured one where it is set,
/// otherwise the machine's name in lowercase. `None` where the machine's
/// name is unknown or not valid UTF-8.
pub fn choose_hostname(configured: &str, machine: Option<String>) -> (r: Option<String>)
    ensures
        configured@.len() > 0 ==> (r matches Some(h) && h@ == configured@),
        configured@.len() == 0 ==> match machine {
            Some(m) => (r matches Some(h) && h@ == spec_lowercase(m@)),
            None => r is None,
        },
{
    if configured.unicode_len() > 0 {
        Some(String::from_str(configured))
    } else {
        match machine {
            Some(m) => Some(lowercase(m.as_str())),
            None => None,
        }
    }
}

/// The host name for the configured `configured` name, asking the machine
/// where none is configured.
pub fn get_hostname(configured: &str) -> (r: Option<String>)
    ensures
        configured@.len() > 0 ==> (r matches Some(h) && h@ == configured@),
        configured@.len() == 0 ==> (r matches Some(h) ==> exists|m: Seq<char>| h@ == spec_lowercase(m)),
{
    let machine = if configured.unicode_len() > 0 {
        None
    } else {
        system_hostname()
    };
    let ghost m = machine;
    let r = choose_hostname(configured, machine);
    proof {
        if configured@.len() == 0 && m is Some {
            assert(r.unwrap()@ == spec_lowercase(m.unwrap()@));
        }
    }
    r
}

} // verus!
