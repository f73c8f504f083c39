//! The greeting command.

use vstd::prelude::*;
use vstd::string::StringExecFns;

verus! {

/// The text of the greeting for `name`: the name between a fixed opening and
/// a fixed closing.
pub open spec fn greeting(name: Seq<char>) -> Seq<char> {
    "Hello, "@ + name + "! You've been greeted!"@
}

/// Greets `name`. Every string is accepted, and the name is taken over as it
/// is.
pub fn greet(name: &str) -> (greeting_text: String)
    ensures
        greeting_text@ == greeting(name@),
{
    let mut text = String::from_str("Hello, ");
    text.append(name);
    text.append("! You've been greeted!");
    text
}

} // verus!
