//! A small workload to trace: a function with a loop, a function that does
//! nothing and a function with a branch.

use vstd::prelude::*;

verus! {

/// The value that [`sub_block`] gives for `true`.
pub const SUB_BLOCK_TAKEN: u64 = 5000000000;

/// The value that [`sub_block`] gives for `false`.
pub const SUB_BLOCK_NOT_TAKEN: u64 = 1000000000;

/// Runs the workload: calls [`empty_block`], takes the value of
/// [`sub_block`] for `true`, and adds two to it `x` times.
pub fn execute_block(x: usize) -> (c: u64)
    requires
        SUB_BLOCK_TAKEN + 2 * x <= u64::MAX,
    ensures
        c == SUB_BLOCK_TAKEN + 2 * x,
{
    empty_block();
    let mut c = sub_block(true);
    let mut i: usize = 0;
    while i < x
        invariant
            i <= x,
            c == SUB_BLOCK_TAKEN + 2 * i,
            SUB_BLOCK_TAKEN + 2 * x <= u64::MAX,
        decreases x - i,
    {
        c += 2;
        i += 1;
    }
    c
}

/// Does nothing.
pub fn empty_block() {
}

/// One of two constants, by `c`.
#[inline(never)]
pub fn sub_block(c: bool) -> (r: u64)
    ensures
        r == if c {
            SUB_BLOCK_TAKEN
        } else {
            SUB_BLOCK_NOT_TAKEN
        },
{
    if c {
        return SUB_BLOCK_TAKEN;
    } else {
        return SUB_BLOCK_NOT_TAKEN;
    }
}

} // verus!
