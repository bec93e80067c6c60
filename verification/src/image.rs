//! Mip-chain sizing for uploaded textures.
//!
//! Decoding the PNG and creating the GPU image are I/O and live in the
//! unverified shell; what is computed here is the number of mip levels a
//! full chain needs for a decoded image: `floor(log2(max(width, height))) + 1`,
//! pinned below by the power-of-two sandwich.

use vstd::prelude::*;

verus! {

/// Two to the power `e`.
pub open spec fn pow2(e: nat) -> nat
    decreases e,
{
    if e == 0 {
        1
    } else {
        2 * pow2((e - 1) as nat)
    }
}

/// The larger image extent.
pub open spec fn max_dim(width: u32, height: u32) -> int {
    if width >= height {
        width as int
    } else {
        height as int
    }
}

/// The number of mip levels of a full chain over a `width` by `height`
/// image: one more than the floor of the base-two logarithm of the larger
/// extent, so the result `r` satisfies `pow2(r - 1) <= max < pow2(r)`.  A
/// degenerate zero extent gets a single level.
pub fn max_mip_levels_2d(width: u32, height: u32) -> (levels: u32)
    ensures
        levels >= 1,
        max_dim(width, height) == 0 ==> levels == 1,
        max_dim(width, height) >= 1 ==> pow2((levels - 1) as nat) <= max_dim(width, height)
            < pow2(levels as nat),
{
    let m: u32 = if width >= height {
        width
    } else {
        height
    };
    if m == 0 {
        return 1;
    }
    let mut levels: u32 = 1;
    let mut p: u64 = 1;
    while p * 2 <= m as u64
        invariant
            1 <= levels,
            levels <= p,
            p == pow2((levels - 1) as nat),
            p <= m as u64,
            m as int == max_dim(width, height),
            1 <= m,
        decreases m as u64 - p,
    {
        p = p * 2;
        levels = levels + 1;
    }
    proof {
        assert(pow2(levels as nat) == 2 * pow2((levels - 1) as nat));
    }
    levels
}

} // verus!
