//! Binary arithmetic underlying the MMR position maps: the number of set bits
//! of a leaf count and the number of trailing zero bits of a leaf count, with
//! the facts about them that the position arithmetic rests on.

use vstd::prelude::*;

verus! {

/// Number of set bits in the binary representation of `n`.
pub open spec fn popcount(n: nat) -> nat
    decreases n,
{
    if n == 0 {
        0
    } else {
        popcount(n / 2) + n % 2
    }
}

/// Number of trailing zero bits of `n`; 0 for odd `n` and, by convention,
/// for `n == 0`.
pub open spec fn trailing_zeros(n: nat) -> nat
    decreases n,
{
    if n == 0 || n % 2 == 1 {
        0
    } else {
        1 + trailing_zeros(n / 2)
    }
}

/// A number bounds its own popcount, and every positive number has at least
/// one set bit.
pub proof fn lemma_popcount_bounds(n: nat)
    ensures
        popcount(n) <= n,
        n >= 1 ==> popcount(n) >= 1,
    decreases n,
{
    if n > 0 {
        lemma_popcount_bounds(n / 2);
    }
}

/// A positive number strictly bounds its own count of trailing zeros.
pub proof fn lemma_trailing_zeros_bound(n: nat)
    ensures
        n >= 1 ==> trailing_zeros(n) < n,
    decreases n,
{
    if n >= 2 && n % 2 == 0 {
        lemma_trailing_zeros_bound(n / 2);
    }
}

/// Incrementing `n` turns its trailing ones into zeros and sets one more bit:
/// `popcount(n + 1) == popcount(n) + 1 - trailing_zeros(n + 1)`.
pub proof fn lemma_popcount_succ(n: nat)
    ensures
        popcount(n + 1) + trailing_zeros(n + 1) == popcount(n) + 1,
    decreases n,
{
    if n % 2 == 0 {
        // n + 1 is odd: no trailing zeros, one more set bit.
        assert((n + 1) / 2 == n / 2);
    } else {
        // n + 1 is even: recurse on the halves.
        let m = (n + 1) / 2;
        lemma_popcount_succ((m - 1) as nat);
        assert((n - 1) / 2 + 1 == m);
        assert(n / 2 == m - 1);
    }
}

/// Count of set bits of `x`.
pub fn popcount_u64(x: u64) -> (r: u64)
    ensures
        r == popcount(x as nat),
{
    let mut n: u64 = x;
    let mut c: u64 = 0;
    proof {
        lemma_popcount_bounds(x as nat);
    }
    while n > 0
        invariant
            c + popcount(n as nat) == popcount(x as nat),
            popcount(x as nat) <= x,
        decreases n,
    {
        proof {
            lemma_popcount_bounds(n as nat);
            lemma_popcount_bounds((n / 2) as nat);
        }
        c = c + n % 2;
        n = n / 2;
    }
    c
}

/// Count of trailing zero bits of a positive `x`.
pub fn trailing_zeros_u64(x: u64) -> (r: u64)
    requires
        x >= 1,
    ensures
        r == trailing_zeros(x as nat),
{
    let mut n: u64 = x;
    let mut c: u64 = 0;
    proof {
        lemma_trailing_zeros_bound(x as nat);
    }
    while n % 2 == 0
        invariant
            n >= 1,
            c + trailing_zeros(n as nat) == trailing_zeros(x as nat),
            trailing_zeros(x as nat) < x,
        decreases n,
    {
        c = c + 1;
        n = n / 2;
    }
    c
}

} // verus!
