//! Small pieces of user-facing text.

use vstd::prelude::*;
use vstd::string::StringExecFns;

verus! {

/// The version line: the executable name and the version, joined by the
/// word "version". Both parts must be non-empty.
pub fn generate_version_output(executable_name: &str, version: &str) -> (r: String)
    requires
        executable_name@.len() > 0,
        version@.len() > 0,
    ensures
        r@ == executable_name@ + " version "@ + version@,
{
    let mut r = String::from_str(executable_name);
    r.append(" version ");
    r.append(version);
    r
}

/// The word "attempt", in the plural form that matches `n`.
pub fn get_attempts_text(n: usize) -> (label: &'static str)
    ensures
        n == 1 ==> label@ == "attempt"@,
        n != 1 ==> label@ == "attempts"@,
{
    if n == 1 {
        "attempt"
    } else {
        "attempts"
    }
}

} // verus!
