//! Powers of two and the index mask of a ring buffer.

use vstd::arithmetic::power::lemma_pow0;
use vstd::arithmetic::power2::{pow2, lemma2_to64, lemma_pow2_unfold, lemma_pow2_pos, lemma_pow2_strictly_increases};
use vstd::bits::{low_bits_mask, lemma_usize_low_bits_mask_is_mod};
use vstd::prelude::*;

verus! {

/// `x` is `2^k` for some natural `k`.
pub open spec fn is_power_of_two(x: nat) -> bool {
    exists|k: nat| pow2(k) == x
}

/// The smallest power of two that is at least `n` (and at least one).
pub open spec fn is_next_power_of_two(n: nat, p: nat) -> bool {
    &&& is_power_of_two(p)
    &&& n <= p
    &&& (p == 1 || p / 2 < n)
}

/// The largest value whose next power of two fits in a `usize`.
pub open spec fn max_pow2_request() -> nat {
    (usize::MAX as nat) / 2 + 1
}

/// Returns the smallest power of two greater than or equal to `n`
/// (one for zero), as `usize::next_power_of_two` does.
pub fn next_power_of_two(n: usize) -> (p: usize)
    requires
        n <= max_pow2_request(),
    ensures
        is_next_power_of_two(n as nat, p as nat),
{
    let mut p: usize = 1;
    let ghost mut k: nat = 0;
    proof {
        lemma_pow0(2);
    }
    while p < n
        invariant
            n <= max_pow2_request(),
            p == pow2(k),
            p >= 1,
            p == 1 || p / 2 < n,
        decreases usize::MAX - p,
    {
        proof {
            lemma_pow2_unfold(k + 1);
        }
        p = p * 2;
        proof {
            k = k + 1;
        }
    }
    p
}

/// A power of two is positive.
pub proof fn lemma_power_of_two_pos(x: nat)
    requires
        is_power_of_two(x),
    ensures
        x > 0,
{
    let k = choose|k: nat| pow2(k) == x;
    lemma_pow2_pos(k);
}

/// A power of two that fits in a `usize` has an exponent below the word size.
pub proof fn lemma_pow2_exponent_fits(k: nat)
    requires
        pow2(k) <= usize::MAX,
    ensures
        k < usize::BITS,
{
    lemma2_to64();
    if k >= usize::BITS {
        if k > usize::BITS {
            lemma_pow2_strictly_increases(usize::BITS as nat, k);
        }
        assert(usize::BITS == 32 || usize::BITS == 64);
    }
}

/// For a power-of-two capacity, masking with `capacity - 1` is taking the
/// remainder modulo the capacity.
pub proof fn lemma_mask_is_mod(x: usize, capacity: usize)
    requires
        is_power_of_two(capacity as nat),
    ensures
        capacity > 0,
        x & ((capacity - 1) as usize) == x % capacity,
{
    let k = choose|k: nat| pow2(k) == capacity as nat;
    lemma_pow2_pos(k);
    lemma_pow2_exponent_fits(k);
    lemma_usize_low_bits_mask_is_mod(x, k);
    assert(low_bits_mask(k) == capacity - 1);
}

} // verus!
