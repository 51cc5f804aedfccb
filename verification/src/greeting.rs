//! The greeting command.

use vstd::prelude::*;
use vstd::string::StringExecFns;

verus! {

/// The greeting for `name`: the name between a fixed opening and a fixed
/// close, with nothing added and nothing escaped.
pub open spec fn greeting(name: Seq<char>) -> Seq<char> {
    "Hello, "@ + name + "! You've been greeted from Rust!"@
}

/// Greets `name`. Every name is accepted, the empty one too.
pub fn greet(name: &str) -> (text: String)
    ensures
        text@ == greeting(name@),
{
    let mut text = "Hello, ".to_owned();
    text.append(name);
    text.append("! You've been greeted from Rust!");
    text
}

} // verus!
