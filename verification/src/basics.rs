//! The scalar and compound data examples: a fixed-size array, blocks as
//! expressions, conditional expressions, and loops over a reversed range.

use vstd::prelude::*;

verus! {

/// A fixed-size array: five elements, all of one type, on the stack.
pub fn arr() -> (a: [i32; 5])
    ensures
        a@ == seq![1i32, 2i32, 3i32, 4i32, 5i32],
{
    let a: [i32; 5] = [1, 2, 3, 4, 5];
    a
}

/// A block is an expression: its value is the trailing line without a
/// semicolon. The inner binding of `x` shadows the outer one, so the
/// block yields 4 while the outer `x` stays 5.
pub fn block_eval() -> (p: (i32, i32))
    ensures
        p.0 == 5,
        p.1 == 4,
{
    let x: i32 = 5;
    let y: i32 = {
        let x: i32 = 3;
        x + 1
    };
    (x, y)
}

/// A function body is itself a block, so a call is an expression too.
pub fn func() -> (p: (i32, i32))
    ensures
        p.0 == 5,
        p.1 == 4,
{
    block_eval()
}

/// An `if` is an expression, so it can stand on the right of a `let`;
/// both arms must have one type.
pub fn let_if(cond: bool) -> (n: i32)
    ensures
        cond ==> n == 5,
        !cond ==> n == 6,
{
    let number: i32 = if cond { 5 } else { 6 };
    number
}

/// The elements that iterating `(lo..hi).rev()` yields: `hi - 1` down
/// to `lo`, and nothing at all when the range is empty.
pub open spec fn countdown(lo: int, hi: int) -> Seq<i32> {
    if lo <= hi {
        Seq::new((hi - lo) as nat, |i: int| (hi - 1 - i) as i32)
    } else {
        Seq::empty()
    }
}

/// Collects the numbers of `lo..hi` from the top down, as iterating
/// the reversed range yields them.
pub fn rev_range(lo: i32, hi: i32) -> (v: Vec<i32>)
    ensures
        v@ == countdown(lo as int, hi as int),
{
    let mut v: Vec<i32> = Vec::new();
    if hi <= lo {
        return v;
    }
    let mut n: i32 = hi;
    while n > lo
        invariant
            lo <= n <= hi,
            v@.len() == hi - n,
            forall|i: int| 0 <= i < v@.len() ==> v@[i] == hi - 1 - i,
        decreases n - lo,
    {
        n = n - 1;
        v.push(n);
    }
    v
}

/// The countdown that the range example yields: 3, 2, 1.
pub fn loops() -> (v: Vec<i32>)
    ensures
        v@ == seq![3i32, 2i32, 1i32],
{
    let v: Vec<i32> = rev_range(1, 4);
    v
}

/// The control-flow example runs the loop demonstrations.
pub fn ctl_flow() -> (v: Vec<i32>)
    ensures
        v@ == seq![3i32, 2i32, 1i32],
{
    loops()
}

} // verus!
