//! The one pure host command: a greeting built from a name.

use vstd::prelude::*;
use vstd::string::StringExecFns;

verus! {

/// Build the greeting for a name: the name stands verbatim between the
/// fixed salutation and tagline.
pub fn greet(name: &str) -> (r: String)
    ensures
        r@ == "Hello, "@ + name@ + "! You've been greeted from Rust!"@,
{
    let mut r = "Hello, ".to_owned();
    r.append(name);
    r.append("! You've been greeted from Rust!");
    r
}

} // verus!
