//! Commands the webview can invoke. There is only one: a greeting built
//! from the caller's name.

use vstd::prelude::*;
use vstd::string::StringExecFns;

verus! {

/// Build the greeting shown to a caller of the `greet` command.
pub fn greet(name: &str) -> (r: String)
    ensures
        r@ == "Hello, "@ + name@ + "! You've been greeted from Rust!"@,
{
    let mut r: String = "Hello, ".to_owned();
    r.append(name);
    r.append("! You've been greeted from Rust!");
    r
}

} // verus!
