//! The greeting: a fixed prefix in front of the caller's text.

use vstd::prelude::*;
use vstd::string::StringExecFns;

verus! {

/// The text that every greeting starts with.
pub open spec fn greeting_prefix() -> Seq<char> {
    "Hello, "@
}

/// The greeting for `name`: the prefix, then `name` unchanged.
pub open spec fn greeting(name: Seq<char>) -> Seq<char> {
    greeting_prefix() + name
}

/// Greets `name`. Any text is accepted, the empty one too, and nothing of it
/// is trimmed, escaped or checked.
pub fn greet(name: &str) -> (text: String)
    ensures
        text@ == greeting(name@),
{
    String::from_str("Hello, ").concat(name)
}

} // verus!
