//! Mip-level arithmetic, centralized so that every call site enforces the
//! same rules: natural mip-chain length of a resolution, saturating
//! subtract-then-clamp of a skip count, power-of-two downsample factors, and
//! per-axis extent division with floor rounding and a minimum of 1.

use vstd::prelude::*;
use vstd::arithmetic::power2::{lemma2_to64, lemma_pow2_pos, lemma_pow2_unfold, pow2};
use vstd::bits::{lemma_u32_pow2_no_overflow, lemma_u32_shl_is_mul};

verus! {

/// Length of the natural mip chain of a one-dimensional resolution `x`:
/// the number of times `x` can be halved (flooring) before reaching 1,
/// plus one for the base level. For `x >= 1` this is `floor(log2(x)) + 1`.
pub open spec fn mip_chain_len(x: nat) -> nat
    decreases x,
{
    if x <= 1 {
        1
    } else {
        1 + mip_chain_len(x / 2)
    }
}

/// A resolution below `2^n` has a mip chain of at most `n` levels.
pub proof fn lemma_mip_chain_len_bound(x: nat, n: nat)
    requires
        n >= 1,
        x < pow2(n),
    ensures
        mip_chain_len(x) <= n,
    decreases x,
{
    if x > 1 {
        if n == 1 {
            assert(pow2(1) == 2) by {
                lemma2_to64();
            }
        }
        lemma_pow2_unfold(n);
        lemma_mip_chain_len_bound(x / 2, (n - 1) as nat);
    }
}

/// Natural mip-chain length of a one-dimensional resolution, as executable
/// code. At most 32 levels fit a `u32` resolution.
pub fn mip_count_1d(x: u32) -> (r: u32)
    requires
        x >= 1,
    ensures
        r == mip_chain_len(x as nat),
        1 <= r <= 32,
{
    proof {
        lemma2_to64();
        lemma_mip_chain_len_bound(x as nat, 32);
    }
    let mut v: u32 = x;
    let mut r: u32 = 1;
    while v > 1
        invariant
            v >= 1,
            r >= 1,
            r + mip_chain_len(v as nat) == 1 + mip_chain_len(x as nat),
            mip_chain_len(x as nat) <= 32,
        decreases v,
    {
        v = v / 2;
        r = r + 1;
    }
    r
}

/// Mip-level count after removing `skip` bottom levels from a chain of
/// `full` levels: the subtraction saturates and the result is clamped to a
/// minimum of one level, so it can never reach zero or wrap.
pub open spec fn levels_after_skip(full: nat, skip: nat) -> nat {
    if full <= skip {
        1
    } else {
        (full - skip) as nat
    }
}

/// Saturating subtract-then-clamp of a skip count from a mip-level count.
pub fn skip_levels(full: u32, skip: u32) -> (r: u32)
    ensures
        r == levels_after_skip(full as nat, skip as nat),
        r >= 1,
{
    if full > skip {
        full - skip
    } else {
        1
    }
}

/// One axis of a dispatch extent divided by a downsample factor:
/// floor-rounded, and clamped to a minimum of one work item.
pub open spec fn div_axis(x: nat, d: nat) -> nat
    recommends
        d >= 1,
{
    if x / d >= 1 {
        x / d
    } else {
        1
    }
}

/// Floor division of one extent axis, clamped to a minimum of 1.
pub fn div_axis_u32(x: u32, d: u32) -> (r: u32)
    requires
        d >= 1,
    ensures
        r == div_axis(x as nat, d as nat),
{
    let q = x / d;
    if q >= 1 {
        q
    } else {
        1
    }
}

/// The downsample factor of mip level `e`: `2^e`, computed by a shift.
pub fn pow2_u32(e: u32) -> (r: u32)
    requires
        e < 32,
    ensures
        r == pow2(e as nat),
        r >= 1,
{
    proof {
        lemma_u32_pow2_no_overflow(e as nat);
        lemma_u32_shl_is_mul(1u32, e);
        lemma_pow2_pos(e as nat);
    }
    1u32 << e
}

} // verus!
