//! Comparison of 64-bit perceptual hashes for the heartbeat: a Hamming
//! distance of at most 4 counts as "pixels not materially changed" (robust to
//! small rendering jitter).
//!
//! The hash itself (resize, grey-scale, DCT, median threshold) works in
//! floating point over an RGBA image and is not part of this library.

use vstd::arithmetic::power2::{lemma2_to64, lemma_pow2_unfold, pow2};
use vstd::prelude::*;

verus! {

/// Number of one bits of `x`.
pub open spec fn popcount(x: u64) -> nat
    decreases x,
{
    if x == 0 {
        0
    } else {
        (x % 2) as nat + popcount(x / 2)
    }
}

/// The number of one bits, counted from the lowest bit up.
fn count_ones(x: u64) -> (n: u32)
    ensures
        n == popcount(x),
{
    proof {
        lemma2_to64();
        lemma_popcount_below(x, 64);
    }
    let mut y: u64 = x;
    let mut n: u32 = 0;
    while y != 0
        invariant
            n + popcount(y) == popcount(x),
            popcount(x) <= 64,
        decreases y,
    {
        n = n + (y % 2) as u32;
        y = y / 2;
    }
    n
}

/// Hamming distance: number of differing bits.
pub fn hamming(a: u64, b: u64) -> (d: u32)
    ensures
        d == popcount(a ^ b),
{
    count_ones(a ^ b)
}

/// Heartbeat test: at most 4 differing bits means unchanged.
pub fn unchanged(a: u64, b: u64) -> (u: bool)
    ensures
        u <==> popcount(a ^ b) <= 4,
{
    hamming(a, b) <= 4
}

/// A hash is at distance 0 from itself, so always unchanged.
pub proof fn lemma_unchanged_reflexive(a: u64)
    ensures
        popcount(a ^ a) == 0,
        popcount(a ^ a) <= 4,
{
    assert(a ^ a == 0) by (bit_vector);
}

/// The comparison is symmetric.
pub proof fn lemma_unchanged_symmetric(a: u64, b: u64)
    ensures
        popcount(a ^ b) == popcount(b ^ a),
{
    assert(a ^ b == b ^ a) by (bit_vector);
}

/// A number below `2^k` has at most `k` one bits.
proof fn lemma_popcount_below(x: u64, k: nat)
    requires
        x < pow2(k),
    ensures
        popcount(x) <= k,
    decreases k,
{
    if k == 0 {
        assert(pow2(0) == 1) by {
            lemma2_to64();
        }
    } else {
        lemma_pow2_unfold(k);
        assert(x / 2 < pow2((k - 1) as nat));
        lemma_popcount_below(x / 2, (k - 1) as nat);
    }
}

/// The ones of `x ^ y` are among those of `x` and of `y`.
proof fn lemma_popcount_xor(x: u64, y: u64)
    ensures
        popcount(x ^ y) <= popcount(x) + popcount(y),
    decreases x + y,
{
    if x == 0 {
        assert(0u64 ^ y == y) by (bit_vector);
    } else if y == 0 {
        assert(x ^ 0u64 == x) by (bit_vector);
    } else {
        let z = x ^ y;
        assert(z / 2 == (x / 2) ^ (y / 2)) by (bit_vector)
            requires
                z == x ^ y,
        ;
        assert(z % 2 <= x % 2 + y % 2) by (bit_vector)
            requires
                z == x ^ y,
        ;
        lemma_popcount_xor(x / 2, y / 2);
    }
}

/// The distance between two 64-bit hashes is at most 64.
pub proof fn lemma_hamming_bounded(a: u64, b: u64)
    ensures
        popcount(a ^ b) <= 64,
{
    lemma2_to64();
    lemma_popcount_below(a ^ b, 64);
}

/// Triangle inequality: going through a third hash never shortens the distance.
pub proof fn lemma_hamming_triangle(a: u64, b: u64, c: u64)
    ensures
        popcount(a ^ c) <= popcount(a ^ b) + popcount(b ^ c),
{
    assert((a ^ b) ^ (b ^ c) == a ^ c) by (bit_vector);
    lemma_popcount_xor(a ^ b, b ^ c);
}

} // verus!
