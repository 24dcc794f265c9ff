//! Position arithmetic for an append-only Merkle Mountain Range: the map from
//! a leaf index to its flattened node position, the size of the MMR that
//! exactly contains a leaf, and the k-index of a queried position — the
//! 0-based index of that leaf in the bottom layer of its peak's subtree,
//! which tells the verifier where the leaf sits among its siblings.

use vstd::prelude::*;

use crate::bits::{
    lemma_popcount_bounds, lemma_popcount_succ, lemma_trailing_zeros_bound, popcount, popcount_u64,
    trailing_zeros, trailing_zeros_u64,
};
use crate::error::Error;

verus! {

/// `2^e`.
pub open spec fn two_pow(e: nat) -> nat
    decreases e,
{
    if e == 0 {
        1
    } else {
        2 * two_pow((e - 1) as nat)
    }
}

/// Number of nodes of a perfect binary tree of height `h` (a single leaf has
/// height 0).
pub open spec fn tree_size(h: nat) -> int {
    2 * two_pow(h) - 1
}

/// The height of the largest perfect tree with at most `s` nodes, for
/// `s >= 1`: the height of the leftmost peak of an MMR of size `s`.
pub open spec fn largest_peak_height(s: nat) -> nat
    decreases s,
{
    if s < 3 {
        0
    } else {
        1 + largest_peak_height(((s - 1) / 2) as nat)
    }
}

/// Number of nodes of the MMR that holds exactly `n` leaves: every leaf but
/// one set bit of `n` gets an internal parent chain, which packs to
/// `2n - popcount(n)`.
pub open spec fn leaf_count_to_mmr_size(n: nat) -> int {
    2 * n - popcount(n)
}

/// Size of the MMR that exactly contains leaves `0..=i`.
pub open spec fn spec_leaf_index_to_mmr_size(i: nat) -> int {
    leaf_count_to_mmr_size(i + 1)
}

/// Flattened position of leaf `i` in the packed post-order representation.
pub open spec fn spec_leaf_index_to_pos(i: nat) -> int {
    spec_leaf_index_to_mmr_size(i) - trailing_zeros(i + 1) - 1
}

/// K-index of the node at local post-order position `q` of a perfect tree of
/// height `h`: its 0-based index in the bottom layer, or `None` if `q` is an
/// internal node.
pub open spec fn descend_k(q: nat, h: nat) -> Option<nat>
    decreases h,
{
    if h == 0 {
        if q == 0 {
            Some(0)
        } else {
            None
        }
    } else {
        let child = tree_size((h - 1) as nat);
        if q < child {
            descend_k(q, (h - 1) as nat)
        } else if q < 2 * child {
            match descend_k((q - child) as nat, (h - 1) as nat) {
                Some(k) => Some((k + two_pow((h - 1) as nat)) as nat),
                None => None,
            }
        } else {
            None
        }
    }
}

/// Walks the peaks of an MMR of size `s` from the highest down and resolves
/// position `pos` to its k-index under the peak that contains it.
pub open spec fn locate_k(pos: nat, s: nat) -> Option<nat>
    decreases s,
{
    if s == 0 {
        None
    } else {
        let h = largest_peak_height(s);
        let t = tree_size(h);
        if pos < t {
            descend_k(pos, h)
        } else if 1 <= t <= s {
            locate_k((pos - t) as nat, (s - t) as nat)
        } else {
            None
        }
    }
}

/// The peaks of a well-formed MMR strictly decrease in height from left to
/// right and tile its size exactly; `max_h` bounds the next peak's height.
pub open spec fn valid_peaks_from(s: nat, max_h: nat) -> bool
    decreases s,
{
    if s == 0 {
        true
    } else {
        let h = largest_peak_height(s);
        let t = tree_size(h);
        h < max_h && 1 <= t <= s && valid_peaks_from((s - t) as nat, h)
    }
}

/// `s` is the size of some well-formed MMR.
pub open spec fn is_valid_mmr_size(s: nat) -> bool {
    valid_peaks_from(s, 64)
}

/// K-index of `pos` in an MMR of size `s`: defined only when `s` is a
/// well-formed size and `pos` is a leaf position below one of its peaks.
pub open spec fn spec_pos_k_index(pos: nat, s: nat) -> Option<nat> {
    if is_valid_mmr_size(s) {
        locate_k(pos, s)
    } else {
        None
    }
}

/// Every queried position resolves to a k-index.
pub open spec fn all_positions_resolve(ps: Seq<u64>, s: nat) -> bool {
    forall|j: int| 0 <= j < ps.len() ==> (#[trigger] spec_pos_k_index(ps[j] as nat, s)) is Some
}

pub proof fn lemma_two_pow_pos(e: nat)
    ensures
        two_pow(e) >= 1,
    decreases e,
{
    if e > 0 {
        lemma_two_pow_pos((e - 1) as nat);
    }
}

pub proof fn lemma_two_pow_lb(e: nat)
    ensures
        two_pow(e) >= e + 1,
    decreases e,
{
    if e > 0 {
        lemma_two_pow_lb((e - 1) as nat);
    }
}

/// The greatest height whose perfect tree fits in `s` is exactly
/// `largest_peak_height(s)`.
pub proof fn lemma_largest_peak_height(s: nat)
    requires
        s >= 1,
    ensures
        1 <= tree_size(largest_peak_height(s)) <= s,
        s < tree_size(largest_peak_height(s) + 1),
    decreases s,
{
    if s < 3 {
        assert(tree_size(0) == 1);
        assert(tree_size(1) == 3);
    } else {
        let s2 = ((s - 1) / 2) as nat;
        lemma_largest_peak_height(s2);
        let h2 = largest_peak_height(s2);
        assert(largest_peak_height(s) == 1 + h2);
        assert(tree_size(1 + h2) == 2 * tree_size(h2) + 1);
        assert(tree_size(1 + h2 + 1) == 2 * tree_size(h2 + 1) + 1);
        assert(2 * s2 + 1 <= s);
        assert(s <= 2 * s2 + 2);
        assert(tree_size(h2 + 1) >= s2 + 1);
    }
}

/// A k-index under a peak of height `h` indexes one of its `2^h` leaves.
pub proof fn lemma_descend_k_bound(q: nat, h: nat)
    ensures
        descend_k(q, h) is Some ==> descend_k(q, h)->Some_0 < two_pow(h),
    decreases h,
{
    if h > 0 {
        let child = tree_size((h - 1) as nat);
        if q < child {
            lemma_descend_k_bound(q, (h - 1) as nat);
            lemma_two_pow_pos((h - 1) as nat);
        } else if q < 2 * child {
            lemma_descend_k_bound((q - child) as nat, (h - 1) as nat);
        }
    }
}

/// Appending one leaf grows the MMR by the new leaf together with one parent
/// per carried bit of the new leaf count.
pub proof fn lemma_mmr_size_succ(n: nat)
    ensures
        leaf_count_to_mmr_size(n + 1) == leaf_count_to_mmr_size(n) + 1 + trailing_zeros(n + 1),
{
    lemma_popcount_succ(n);
}

/// The MMR size grows strictly with the leaf count.
pub proof fn lemma_mmr_size_monotonic(n: nat, m: nat)
    requires
        n < m,
    ensures
        leaf_count_to_mmr_size(n) < leaf_count_to_mmr_size(m),
    decreases m - n,
{
    lemma_mmr_size_succ((m - 1) as nat);
    if n < m - 1 {
        lemma_mmr_size_monotonic(n, (m - 1) as nat);
    }
}

/// The next leaf is appended at the position just past the current MMR:
/// `pos(i + 1) == size(i)`.
pub proof fn lemma_leaf_pos_succ(i: nat)
    ensures
        spec_leaf_index_to_pos(i + 1) == spec_leaf_index_to_mmr_size(i),
        spec_leaf_index_to_pos(i + 1) == spec_leaf_index_to_pos(i) + 1 + trailing_zeros(i + 1),
{
    lemma_mmr_size_succ((i + 1) as nat);
}

/// `leaf_index_to_pos` is strictly increasing in the leaf index, and
/// therefore injective.
pub proof fn lemma_leaf_index_to_pos_strictly_increasing(i: nat, j: nat)
    requires
        i < j,
    ensures
        spec_leaf_index_to_pos(i) < spec_leaf_index_to_pos(j),
    decreases j - i,
{
    lemma_leaf_pos_succ((j - 1) as nat);
    if i < j - 1 {
        lemma_leaf_index_to_pos_strictly_increasing(i, (j - 1) as nat);
    }
}

/// Distinct leaf indices map to distinct positions.
pub proof fn lemma_leaf_index_to_pos_injective(i: nat, j: nat)
    requires
        spec_leaf_index_to_pos(i) == spec_leaf_index_to_pos(j),
    ensures
        i == j,
{
    if i < j {
        lemma_leaf_index_to_pos_strictly_increasing(i, j);
    } else if j < i {
        lemma_leaf_index_to_pos_strictly_increasing(j, i);
    }
}

/// `s` is the size of a well-formed MMR that contains leaf `i`, that is, an
/// MMR whose leaf count reaches past `i`.
pub open spec fn is_mmr_size_containing_leaf(s: int, i: nat) -> bool {
    exists|n: nat| n >= i + 1 && s == leaf_count_to_mmr_size(n)
}

/// `leaf_index_to_mmr_size(i)` is the smallest well-formed MMR size that
/// contains leaf `i`.
pub proof fn lemma_mmr_size_minimal(i: nat)
    ensures
        is_mmr_size_containing_leaf(spec_leaf_index_to_mmr_size(i), i),
        forall|s: int|
            is_mmr_size_containing_leaf(s, i) ==> s >= spec_leaf_index_to_mmr_size(i),
{
    assert(is_mmr_size_containing_leaf(spec_leaf_index_to_mmr_size(i), i)) by {
        let n = (i + 1) as nat;
        assert(n >= i + 1 && spec_leaf_index_to_mmr_size(i) == leaf_count_to_mmr_size(n));
    }
    assert forall|s: int| is_mmr_size_containing_leaf(s, i) implies s
        >= spec_leaf_index_to_mmr_size(i) by {
        let n = choose|n: nat| n >= i + 1 && s == leaf_count_to_mmr_size(n);
        if n > i + 1 {
            lemma_mmr_size_monotonic((i + 1) as nat, n);
        }
    }
}

pub proof fn lemma_two_pow_strict_mono(a: nat, b: nat)
    requires
        a < b,
    ensures
        two_pow(a) < two_pow(b),
    decreases b,
{
    lemma_two_pow_pos(a);
    if a + 1 < b {
        lemma_two_pow_strict_mono(a, (b - 1) as nat);
    }
    lemma_two_pow_pos((b - 1) as nat);
}

pub proof fn lemma_two_pow_add(a: nat, b: nat)
    ensures
        two_pow(a + b) == two_pow(a) * two_pow(b),
    decreases b,
{
    if b > 0 {
        lemma_two_pow_add(a, (b - 1) as nat);
        assert((a + b - 1) as nat == a + ((b - 1) as nat));
        assert(two_pow(a + b) == 2 * two_pow((a + b - 1) as nat));
        assert(two_pow(b) == 2 * two_pow((b - 1) as nat));
        assert(two_pow(a) * (2 * two_pow((b - 1) as nat)) == 2 * (two_pow(a) * two_pow(
            (b - 1) as nat,
        ))) by (nonlinear_arith);
        assert(two_pow(a) * two_pow(b) == two_pow(a) * (2 * two_pow((b - 1) as nat)));
        assert(two_pow(a) * two_pow(b) == 2 * two_pow(a + ((b - 1) as nat)));
    } else {
        assert(two_pow(0) == 1);
        assert(two_pow(a) * 1 == two_pow(a)) by (nonlinear_arith);
    }
}

pub proof fn lemma_two_pow_64()
    ensures
        two_pow(64) == 0x1_0000_0000_0000_0000,
{
    assert(two_pow(8) == 256) by {
        reveal_with_fuel(two_pow, 9);
    }
    lemma_two_pow_add(8, 8);
    assert(two_pow(16) == 256 * 256);
    lemma_two_pow_add(16, 16);
    assert(two_pow(32) == 65536 * 65536);
    lemma_two_pow_add(32, 32);
    assert(two_pow(64) == 0x1_0000_0000 * 0x1_0000_0000);
}

/// The exponent of the highest set bit of `n`.
pub open spec fn floor_log2(n: nat) -> nat
    decreases n,
{
    if n < 2 {
        0
    } else {
        1 + floor_log2(n / 2)
    }
}

pub proof fn lemma_floor_log2(n: nat)
    requires
        n >= 1,
    ensures
        two_pow(floor_log2(n)) <= n < two_pow(floor_log2(n) + 1),
    decreases n,
{
    if n >= 2 {
        lemma_floor_log2(n / 2);
        let g = floor_log2(n / 2);
        assert(floor_log2(n) == 1 + g);
        assert(two_pow(1 + g) == 2 * two_pow(g));
        assert(two_pow(1 + g + 1) == 2 * two_pow(g + 1));
        assert(2 * two_pow(g) <= n);
        assert(n < 2 * two_pow(g + 1));
    } else {
        assert(two_pow(1) == 2 * two_pow(0));
    }
}

/// Splitting off the highest bit drops one from the popcount.
pub proof fn lemma_popcount_split(k: nat, m: nat)
    requires
        m < two_pow(k),
    ensures
        popcount((two_pow(k) + m) as nat) == 1 + popcount(m),
    decreases k,
{
    if k == 0 {
        assert(m == 0);
    } else {
        let a = two_pow((k - 1) as nat);
        lemma_two_pow_pos((k - 1) as nat);
        lemma_popcount_split((k - 1) as nat, m / 2);
        assert(two_pow(k) == 2 * a);
        assert((2 * a + m) / 2 == a + m / 2);
        assert((2 * a + m) % 2 == m % 2);
    }
}

/// A value below the highest bit keeps its trailing zeros when that bit is
/// added.
pub proof fn lemma_trailing_zeros_split(k: nat, m: nat)
    requires
        0 < m < two_pow(k),
    ensures
        trailing_zeros((two_pow(k) + m) as nat) == trailing_zeros(m),
    decreases k,
{
    let a = two_pow((k - 1) as nat);
    lemma_two_pow_pos((k - 1) as nat);
    assert(k >= 1);
    assert(two_pow(k) == 2 * a);
    assert((2 * a + m) % 2 == m % 2);
    if m % 2 == 0 {
        assert((2 * a + m) / 2 == a + m / 2);
        lemma_trailing_zeros_split((k - 1) as nat, m / 2);
    }
}

pub proof fn lemma_popcount_pow(k: nat)
    ensures
        popcount(two_pow(k)) == 1,
    decreases k,
{
    if k == 0 {
        assert(popcount(1) == popcount(0) + 1);
    } else {
        let a = two_pow((k - 1) as nat);
        lemma_two_pow_pos((k - 1) as nat);
        lemma_popcount_pow((k - 1) as nat);
        assert(two_pow(k) == 2 * a);
        assert((2 * a) / 2 == a && (2 * a) % 2 == 0);
        assert(popcount((2 * a) as nat) == popcount(a));
    }
}

pub proof fn lemma_trailing_zeros_pow(k: nat)
    ensures
        trailing_zeros(two_pow(k)) == k,
    decreases k,
{
    if k > 0 {
        let a = two_pow((k - 1) as nat);
        lemma_two_pow_pos((k - 1) as nat);
        lemma_trailing_zeros_pow((k - 1) as nat);
        assert(two_pow(k) == 2 * a);
        assert((2 * a) / 2 == a && (2 * a) % 2 == 0);
    }
}

pub proof fn lemma_tree_size_strict_mono(a: nat, b: nat)
    requires
        a < b,
    ensures
        tree_size(a) < tree_size(b),
{
    lemma_two_pow_strict_mono(a, b);
}

/// The largest peak height is determined by its characteristic interval.
pub proof fn lemma_lph_unique(s: nat, h: nat)
    requires
        s >= 1,
        tree_size(h) <= s < tree_size(h + 1),
    ensures
        largest_peak_height(s) == h,
{
    lemma_largest_peak_height(s);
    let g = largest_peak_height(s);
    if g < h {
        if g + 1 < h {
            lemma_tree_size_strict_mono((g + 1) as nat, h);
        }
        assert(false);
    } else if h < g {
        if h + 1 < g {
            lemma_tree_size_strict_mono((h + 1) as nat, g);
        }
        assert(false);
    }
}

/// The leftmost peak of the MMR with `n` leaves has height `floor_log2(n)`.
pub proof fn lemma_lph_of_size(n: nat)
    requires
        n >= 1,
    ensures
        tree_size(floor_log2(n)) <= leaf_count_to_mmr_size(n) < tree_size(floor_log2(n) + 1),
        leaf_count_to_mmr_size(n) >= n,
{
    let h1 = floor_log2(n);
    lemma_floor_log2(n);
    lemma_popcount_bounds(n);
    let p = two_pow(h1);
    assert(two_pow(h1 + 1) == 2 * p);
    if n == p {
        lemma_popcount_pow(h1);
    } else {
        let m = (n - p) as nat;
        lemma_popcount_split(h1, m);
        lemma_popcount_bounds(m);
    }
}

/// Descending to the rightmost leaf of a perfect tree of height `h` gives
/// the last k-index of its bottom layer.
pub proof fn lemma_descend_last(h: nat)
    ensures
        descend_k((tree_size(h) - h - 1) as nat, h) == Some((two_pow(h) - 1) as nat),
    decreases h,
{
    lemma_two_pow_pos(h);
    if h > 0 {
        lemma_descend_last((h - 1) as nat);
        lemma_two_pow_lb((h - 1) as nat);
        let child = tree_size((h - 1) as nat);
        let q = tree_size(h) - h - 1;
        assert(tree_size(h) == 2 * child + 1);
        assert(q == 2 * child - h);
        assert(child <= q < 2 * child);
        assert(q - child == tree_size((h - 1) as nat) - (h - 1) - 1);
    }
}

/// The MMR that exactly contains `n` leaves is well formed, and its last
/// leaf resolves to k-index `2^trailing_zeros(n) - 1` under its lowest peak.
pub proof fn lemma_last_leaf_locates(n: nat, m: nat)
    requires
        1 <= n < two_pow(m),
    ensures
        valid_peaks_from(leaf_count_to_mmr_size(n) as nat, m),
        locate_k(
            (leaf_count_to_mmr_size(n) - trailing_zeros(n) - 1) as nat,
            leaf_count_to_mmr_size(n) as nat,
        ) == Some((two_pow(trailing_zeros(n)) - 1) as nat),
    decreases n,
{
    let h1 = floor_log2(n);
    lemma_floor_log2(n);
    if h1 >= m {
        if m < h1 {
            lemma_two_pow_strict_mono(m, h1);
        }
        assert(false);
    }
    let p = two_pow(h1);
    let s = leaf_count_to_mmr_size(n);
    lemma_lph_of_size(n);
    lemma_popcount_bounds(n);
    lemma_lph_unique(s as nat, h1);
    let t = tree_size(h1);
    if n == p {
        lemma_popcount_pow(h1);
        lemma_trailing_zeros_pow(h1);
        assert(s == t);
        lemma_descend_last(h1);
        assert(valid_peaks_from((s - t) as nat, h1));
    } else {
        let mm = (n - p) as nat;
        lemma_popcount_split(h1, mm);
        lemma_trailing_zeros_split(h1, mm);
        lemma_popcount_bounds(mm);
        lemma_trailing_zeros_bound(mm);
        lemma_last_leaf_locates(mm, h1);
        let s2 = leaf_count_to_mmr_size(mm);
        assert(s == t + s2);
        let pos = s - trailing_zeros(n) - 1;
        assert(trailing_zeros(n) == trailing_zeros(mm));
        assert(s2 >= mm);
        assert(pos - t == s2 - trailing_zeros(mm) - 1);
        assert(pos >= t);
    }
}

/// Every size whose peaks tile it with strictly decreasing heights below
/// `m` is the size of the MMR with some leaf count below `2^m`.
pub proof fn lemma_valid_size_has_leaf_count(s: nat, m: nat)
    requires
        valid_peaks_from(s, m),
    ensures
        exists|n: nat| n < two_pow(m) && s == leaf_count_to_mmr_size(n),
    decreases s,
{
    lemma_two_pow_pos(m);
    if s == 0 {
        assert(0 < two_pow(m) && s == leaf_count_to_mmr_size(0));
    } else {
        let h = largest_peak_height(s);
        let t = tree_size(h);
        lemma_largest_peak_height(s);
        lemma_valid_size_has_leaf_count((s - t) as nat, h);
        let n2 = choose|n: nat| n < two_pow(h) && (s - t) as nat == leaf_count_to_mmr_size(n);
        let n = two_pow(h) + n2;
        if n2 == 0 {
            lemma_popcount_pow(h);
        } else {
            lemma_popcount_split(h, n2);
        }
        if h + 1 < m {
            lemma_two_pow_strict_mono((h + 1) as nat, m);
        }
        assert(two_pow(h + 1) == 2 * two_pow(h));
        assert(n < two_pow(m) && s == leaf_count_to_mmr_size(n));
    }
}

/// A well-formed MMR size always comes from some leaf count: the structural
/// peak tiling and the arithmetic `2n - popcount(n)` describe the same sizes.
pub proof fn lemma_valid_mmr_size_reachable(s: nat)
    requires
        is_valid_mmr_size(s),
    ensures
        exists|n: nat| s == leaf_count_to_mmr_size(n),
{
    lemma_valid_size_has_leaf_count(s, 64);
    let n = choose|n: nat| n < two_pow(64) && s == leaf_count_to_mmr_size(n);
    assert(s == leaf_count_to_mmr_size(n));
}

/// Recomputing the k-index of leaf `i` against the size of the MMR that
/// exactly contains it always succeeds: the size is well formed and the leaf
/// resolves to the last position of its lowest peak.
pub proof fn lemma_leaf_k_index_resolves(i: nat)
    requires
        i < 0x7fff_ffff_ffff_ffff,
    ensures
        is_valid_mmr_size(spec_leaf_index_to_mmr_size(i) as nat),
        spec_pos_k_index(
            spec_leaf_index_to_pos(i) as nat,
            spec_leaf_index_to_mmr_size(i) as nat,
        ) == Some((two_pow(trailing_zeros(i + 1)) - 1) as nat),
{
    lemma_two_pow_64();
    lemma_last_leaf_locates((i + 1) as nat, 64);
}

/// Size of the MMR that exactly contains leaves `0..=leaf_index`.
pub fn leaf_index_to_mmr_size(leaf_index: u64) -> (r: u64)
    requires
        leaf_index < 0x7fff_ffff_ffff_ffff,
    ensures
        r == spec_leaf_index_to_mmr_size(leaf_index as nat),
{
    let leaves_count: u64 = leaf_index + 1;
    let peak_count: u64 = popcount_u64(leaves_count);
    proof {
        lemma_popcount_bounds(leaves_count as nat);
    }
    2 * leaves_count - peak_count
}

/// Flattened position of leaf `leaf_index` in the packed MMR representation.
pub fn leaf_index_to_pos(leaf_index: u64) -> (r: u64)
    requires
        leaf_index < 0x7fff_ffff_ffff_ffff,
    ensures
        r == spec_leaf_index_to_pos(leaf_index as nat),
{
    let size: u64 = leaf_index_to_mmr_size(leaf_index);
    let height: u64 = trailing_zeros_u64(leaf_index + 1);
    proof {
        lemma_popcount_bounds((leaf_index + 1) as nat);
        lemma_trailing_zeros_bound((leaf_index + 1) as nat);
    }
    size - height - 1
}

/// Height of the leftmost peak of an MMR of size `s`.
fn largest_peak_height_u64(s: u64) -> (r: u64)
    requires
        s >= 1,
    ensures
        r == largest_peak_height(s as nat),
        r < s,
    decreases s,
{
    proof {
        lemma_largest_peak_height(s as nat);
        lemma_two_pow_lb(largest_peak_height(s as nat));
    }
    if s < 3 {
        0
    } else {
        1 + largest_peak_height_u64((s - 1) / 2)
    }
}

/// Node count of a perfect tree of height `h`.
fn tree_size_u64(h: u64) -> (r: u64)
    requires
        tree_size(h as nat) <= u64::MAX,
    ensures
        r == tree_size(h as nat),
    decreases h,
{
    if h == 0 {
        1
    } else {
        proof {
            lemma_two_pow_pos((h - 1) as nat);
        }
        let t = tree_size_u64(h - 1);
        2 * t + 1
    }
}

/// Resolves local position `q` inside a perfect tree of height `h`.
fn descend_k_u64(q: u64, h: u64) -> (r: Option<u64>)
    requires
        tree_size(h as nat) <= u64::MAX,
        q < tree_size(h as nat),
    ensures
        r is Some <==> descend_k(q as nat, h as nat) is Some,
        r is Some ==> r->Some_0 == descend_k(q as nat, h as nat)->Some_0,
    decreases h,
{
    if h == 0 {
        Some(0)
    } else {
        proof {
            lemma_two_pow_pos((h - 1) as nat);
        }
        let child = tree_size_u64(h - 1);
        if q < child {
            descend_k_u64(q, h - 1)
        } else if q < 2 * child {
            proof {
                lemma_descend_k_bound((q - child) as nat, (h - 1) as nat);
            }
            match descend_k_u64(q - child, h - 1) {
                Some(k) => Some(k + (child + 1) / 2),
                None => None,
            }
        } else {
            None
        }
    }
}

/// Resolves `pos` against the peaks of an MMR of size `s`.
fn locate_k_u64(pos: u64, s: u64) -> (r: Option<u64>)
    ensures
        r is Some <==> locate_k(pos as nat, s as nat) is Some,
        r is Some ==> r->Some_0 == locate_k(pos as nat, s as nat)->Some_0,
    decreases s,
{
    if s == 0 {
        None
    } else {
        proof {
            lemma_largest_peak_height(s as nat);
        }
        let h = largest_peak_height_u64(s);
        let t = tree_size_u64(h);
        if pos < t {
            descend_k_u64(pos, h)
        } else {
            locate_k_u64(pos - t, s - t)
        }
    }
}

/// Checks that the peaks of size `s` strictly decrease below `max_h` and
/// tile `s` exactly.
fn valid_peaks_from_u64(s: u64, max_h: u64) -> (r: bool)
    ensures
        r == valid_peaks_from(s as nat, max_h as nat),
    decreases s,
{
    if s == 0 {
        true
    } else {
        proof {
            lemma_largest_peak_height(s as nat);
        }
        let h = largest_peak_height_u64(s);
        if h >= max_h {
            false
        } else {
            let t = tree_size_u64(h);
            valid_peaks_from_u64(s - t, h)
        }
    }
}

/// For each queried position, its k-index in an MMR of `mmr_size` nodes, in
/// input order.  Fails with `MalformedProof` when `mmr_size` is not a
/// well-formed MMR size or a position is out of range or not a leaf; it never
/// silently clamps.
pub fn mmr_position_to_k_index(positions: &Vec<u64>, mmr_size: u64) -> (r: Result<
    Vec<(u64, u64)>,
    Error,
>)
    ensures
        r is Ok <==> (is_valid_mmr_size(mmr_size as nat) && all_positions_resolve(
            positions@,
            mmr_size as nat,
        )),
        r is Err ==> r->Err_0 == Error::MalformedProof,
        r is Ok ==> r->Ok_0@.len() == positions@.len(),
        r is Ok ==> forall|j: int|
            0 <= j < positions@.len() ==> (#[trigger] r->Ok_0@[j]).0 == positions@[j]
                && r->Ok_0@[j].1 as nat == spec_pos_k_index(
                positions@[j] as nat,
                mmr_size as nat,
            )->Some_0,
{
    if !valid_peaks_from_u64(mmr_size, 64) {
        return Err(Error::MalformedProof);
    }
    let mut out: Vec<(u64, u64)> = Vec::new();
    let mut idx: usize = 0;
    while idx < positions.len()
        invariant
            idx <= positions@.len(),
            out@.len() == idx,
            is_valid_mmr_size(mmr_size as nat),
            forall|j: int|
                0 <= j < idx ==> (#[trigger] spec_pos_k_index(
                    positions@[j] as nat,
                    mmr_size as nat,
                )) is Some,
            forall|j: int|
                0 <= j < idx ==> (#[trigger] out@[j]).0 == positions@[j] && out@[j].1 as nat
                    == spec_pos_k_index(positions@[j] as nat, mmr_size as nat)->Some_0,
        decreases positions@.len() - idx,
    {
        let p = positions[idx];
        match locate_k_u64(p, mmr_size) {
            Some(k) => {
                out.push((p, k));
            },
            None => {
                proof {
                    assert(spec_pos_k_index(positions@[idx as int] as nat, mmr_size as nat)
                        is None);
                }
                return Err(Error::MalformedProof);
            },
        }
        idx = idx + 1;
    }
    Ok(out)
}

} // verus!
