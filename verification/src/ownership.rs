//! The ownership examples: a heap-backed growable string built in
//! scope, and functions that move a value out, or take one and hand it
//! back.

use vstd::prelude::*;

verus! {

/// The string the scope example grows: "hello" with ", world!"
/// appended in place.
pub fn scope() -> (s: String)
    ensures
        s@ == "hello, world!"@,
{
    let mut s: String = String::from_str("hello");
    s.append(", world!");
    proof {
        reveal_strlit("hello");
        reveal_strlit(", world!");
        reveal_strlit("hello, world!");
    }
    s
}

/// Moves its return value out to the caller, which becomes the owner.
pub fn gives_ownership() -> (s: String)
    ensures
        s@ == "derp"@,
{
    String::from_str("derp")
}

/// Takes ownership of a string and moves it right back to the caller,
/// unchanged.
pub fn takes_and_gives_back(foo: String) -> (r: String)
    ensures
        r@ == foo@,
{
    foo
}

} // verus!
