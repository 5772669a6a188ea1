//! The example command handler: formats a greeting for a name.

use vstd::prelude::*;

verus! {

/// The greeting built for `name`, as a sequence of characters.
pub open spec fn greeting(name: Seq<char>) -> Seq<char> {
    "Hello, "@ + name + "! You've been greeted!"@
}

/// True when `needle` occurs in `hay` as a contiguous substring.
pub open spec fn contains_seq(hay: Seq<char>, needle: Seq<char>) -> bool {
    exists|i: int|
        0 <= i && i + needle.len() <= hay.len() && #[trigger] hay.subrange(
            i,
            i + needle.len() as int,
        ) == needle
}

/// Formats the greeting for `name`. Succeeds for every input string.
pub fn greet(name: &str) -> (r: String)
    ensures
        r@ == greeting(name@),
{
    let mut r: String = String::from_str("Hello, ");
    r.append(name);
    r.append("! You've been greeted!");
    r
}

/// The greeting always contains the name it was built from.
pub proof fn lemma_greeting_contains_name(name: Seq<char>)
    ensures
        contains_seq(greeting(name), name),
{
    reveal_strlit("Hello, ");
    let hay = greeting(name);
    assert(hay.subrange(7, 7 + name.len() as int) =~= name);
}

} // verus!
