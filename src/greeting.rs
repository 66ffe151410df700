//! The greeting shown to a user by name.
use vstd::prelude::*;
use vstd::string::StringExecFns;

verus! {

pub open spec fn greeting(name: Seq<char>) -> Seq<char> {
    "Nice to meet you, "@ + name + "!"@
}

/// "Nice to meet you, <name>!"
pub fn greet_user(name: &str) -> (r: String)
    ensures
        r@ == greeting(name@),
{
    let head = "Nice to meet you, ".to_owned();
    let with_name = head.concat(name);
    with_name.concat("!")
}

} // verus!
