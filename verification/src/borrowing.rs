//! The borrowing examples: reading through a shared reference, writing
//! through an exclusive one, and handing ownership out instead of
//! returning a reference into a scope that ends.

use vstd::prelude::*;

verus! {

/// Reads the length of a string through a shared reference, without
/// taking ownership of it.
pub fn calc_len(s: &String) -> (n: usize)
    ensures
        n == s@.len(),
{
    s.as_str().unicode_len()
}

/// Writes through an exclusive reference: appends " fu." to the string
/// it borrows.
pub fn change(some_str: &mut String)
    ensures
        final(some_str)@ == old(some_str)@ + " fu."@,
{
    some_str.append(" fu.");
}

/// A reference into this body would dangle once it returns, so the
/// string itself moves out to the caller instead.
pub fn no_dangle() -> (s: String)
    ensures
        s@ == "no dangle"@,
{
    String::from_str("no dangle")
}

} // verus!
