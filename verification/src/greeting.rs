//! The greeting that answers the front end's connectivity test.

use vstd::prelude::*;
use crate::text::join3;

verus! {

/// The greeting for `name`.
pub fn greet(name: &str) -> (r: String)
    ensures
        r@ == "Hello, "@ + name@ + "! You've been greeted from Rust (MandingoForge IPC)."@,
{
    join3("Hello, ", name, "! You've been greeted from Rust (MandingoForge IPC).")
}

} // verus!
