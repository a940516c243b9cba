//! The numeric payload used to smoke-test the bootstrapped toolchain.
//!
//! The specialized target reads its two input words from a raw byte buffer;
//! that decoding is the runner's job. The arithmetic itself lives here: a
//! long chain of wrapping multiplications, kept alive by reassignment so the
//! downstream code generator cannot fold it away.

use vstd::prelude::*;

verus! {

/// `base` multiplied by `factor`, `n` times, with wrapping arithmetic.
pub open spec fn mul_chain(base: u128, factor: u128, n: nat) -> u128
    decreases n,
{
    if n == 0 {
        base
    } else {
        vstd::wrapping::u128_specs::wrapping_mul(mul_chain(base, factor, (n - 1) as nat), factor)
    }
}

/// The smoke-test payload: ten thousand wrapping multiplications folded over
/// the two input words, then the upper half of the result.
pub fn entrypoint(a: u128, b: u128) -> (r: u64)
    ensures
        r == (mul_chain(a, b, 10000) >> 64) as u64,
{
    let mut acc = a;
    let mut i: usize = 0;
    while i < 10000
        invariant
            i <= 10000,
            acc == mul_chain(a, b, i as nat),
        decreases 10000 - i,
    {
        acc = acc.wrapping_mul(b);
        i = i + 1;
    }
    (acc >> 64) as u64
}

} // verus!
