use beefy_translator::error::Error;
use beefy_translator::position::{leaf_index_to_mmr_size, leaf_index_to_pos, mmr_position_to_k_index};

#[test]
fn test_leaf_index_to_pos_values() {
    // First leaves of the canonical packing: 0 1 . 3 4 . . 7 8 . 10 ...
    let expected: [u64; 8] = [0, 1, 3, 4, 7, 8, 10, 11];
    for (i, e) in expected.iter().enumerate() {
        assert_eq!(leaf_index_to_pos(i as u64), *e);
    }
}

#[test]
fn test_leaf_index_to_mmr_size_values() {
    let expected: [u64; 8] = [1, 3, 4, 7, 8, 10, 11, 15];
    for (i, e) in expected.iter().enumerate() {
        assert_eq!(leaf_index_to_mmr_size(i as u64), *e);
    }
}

#[test]
fn test_position_arithmetic_matches_reference_crate() {
    for i in 0..2000u64 {
        assert_eq!(leaf_index_to_pos(i), ckb_merkle_mountain_range::leaf_index_to_pos(i));
        assert_eq!(
            leaf_index_to_mmr_size(i),
            ckb_merkle_mountain_range::leaf_index_to_mmr_size(i)
        );
    }
    for i in [0xffff_u64, 0xabcdef, 0x1234_5678_9abc] {
        assert_eq!(leaf_index_to_pos(i), ckb_merkle_mountain_range::leaf_index_to_pos(i));
        assert_eq!(
            leaf_index_to_mmr_size(i),
            ckb_merkle_mountain_range::leaf_index_to_mmr_size(i)
        );
    }
}

#[test]
fn test_leaf_pos_strictly_increasing() {
    let mut prev = leaf_index_to_pos(0);
    for i in 1..500u64 {
        let cur = leaf_index_to_pos(i);
        assert!(cur > prev);
        prev = cur;
    }
}

#[test]
fn test_mmr_size_is_minimal() {
    // The size for leaf i is the position where leaf i + 1 would land, and
    // sizes grow strictly: no smaller well-formed size contains leaf i.
    let mut prev = leaf_index_to_mmr_size(0);
    for i in 1..500u64 {
        let cur = leaf_index_to_mmr_size(i);
        assert!(cur > prev);
        assert_eq!(leaf_index_to_pos(i), prev);
        prev = cur;
    }
}

#[test]
fn test_single_leaf_mmr_k_index() {
    // Leaf 0 in a 1-leaf MMR sits at position 0 and is its own peak: k-index 0.
    assert_eq!(leaf_index_to_pos(0), 0);
    assert_eq!(leaf_index_to_mmr_size(0), 1);
    let r = mmr_position_to_k_index(&vec![0], 1);
    assert_eq!(r, Ok(vec![(0, 0)]));
}

#[test]
fn test_seven_leaf_k_indices() {
    // 7 leaves pack into 11 nodes with peaks of heights 2, 1, 0.
    assert_eq!(leaf_index_to_mmr_size(6), 11);
    // Leaf 3 sits at position 4, the last leaf of the first peak: k-index 3.
    assert_eq!(leaf_index_to_pos(3), 4);
    assert_eq!(mmr_position_to_k_index(&vec![4], 11), Ok(vec![(4, 3)]));
    // The other leaves of the first peak.
    assert_eq!(mmr_position_to_k_index(&vec![0], 11), Ok(vec![(0, 0)]));
    assert_eq!(mmr_position_to_k_index(&vec![1], 11), Ok(vec![(1, 1)]));
    assert_eq!(mmr_position_to_k_index(&vec![3], 11), Ok(vec![(3, 2)]));
    // Leaves of the later peaks start again at k-index 0.
    assert_eq!(mmr_position_to_k_index(&vec![7], 11), Ok(vec![(7, 0)]));
    assert_eq!(mmr_position_to_k_index(&vec![8], 11), Ok(vec![(8, 1)]));
    assert_eq!(mmr_position_to_k_index(&vec![10], 11), Ok(vec![(10, 0)]));
    // Several positions resolve in input order.
    assert_eq!(
        mmr_position_to_k_index(&vec![4, 7, 10], 11),
        Ok(vec![(4, 3), (7, 0), (10, 0)])
    );
}

#[test]
fn test_k_index_rejects_out_of_range_position() {
    // Position 11 is outside an 11-node MMR: malformed, never clamped.
    assert_eq!(mmr_position_to_k_index(&vec![11], 11), Err(Error::MalformedProof));
    assert_eq!(mmr_position_to_k_index(&vec![100], 11), Err(Error::MalformedProof));
}

#[test]
fn test_k_index_rejects_internal_node_position() {
    // Position 2 is the parent of leaves 0 and 1, not a leaf.
    assert_eq!(mmr_position_to_k_index(&vec![2], 11), Err(Error::MalformedProof));
    // Position 6 is the first peak itself.
    assert_eq!(mmr_position_to_k_index(&vec![6], 11), Err(Error::MalformedProof));
}

#[test]
fn test_k_index_rejects_invalid_mmr_size() {
    // 2, 5 and 6 nodes cannot be tiled by peaks of strictly decreasing
    // height: no MMR ever has these sizes.
    for bad in [2u64, 5, 6, 9, 12, 13, 14] {
        assert_eq!(mmr_position_to_k_index(&vec![0], bad), Err(Error::MalformedProof));
    }
}

/// Independent model: the k-index of leaf `l` among `n` leaves is `l` minus
/// the leaves under the peaks left of its own (the peaks follow the binary
/// decomposition of `n`, highest bit first).
fn naive_k_index(n: u64, l: u64) -> u64 {
    let mut before = 0u64;
    for h in (0..64).rev() {
        if n & (1u64 << h) != 0 {
            let leaves = 1u64 << h;
            if l < before + leaves {
                return l - before;
            }
            before += leaves;
        }
    }
    unreachable!();
}

#[test]
fn test_k_index_matches_naive_model() {
    for n in 1..=64u64 {
        let size = leaf_index_to_mmr_size(n - 1);
        let positions: Vec<u64> = (0..n).map(leaf_index_to_pos).collect();
        let result = mmr_position_to_k_index(&positions, size).unwrap();
        for l in 0..n {
            assert_eq!(result[l as usize].0, leaf_index_to_pos(l));
            assert_eq!(result[l as usize].1, naive_k_index(n, l));
        }
    }
}

#[test]
fn test_only_leaf_positions_resolve() {
    // In an 8-leaf MMR every position is either a leaf position or an
    // internal one; exactly the former resolve.
    let n = 8u64;
    let size = leaf_index_to_mmr_size(n - 1);
    let leaf_positions: Vec<u64> = (0..n).map(leaf_index_to_pos).collect();
    for pos in 0..size {
        let r = mmr_position_to_k_index(&vec![pos], size);
        if leaf_positions.contains(&pos) {
            assert!(r.is_ok());
        } else {
            assert_eq!(r, Err(Error::MalformedProof));
        }
    }
}

#[test]
fn test_k_index_empty_positions_ok_on_valid_size() {
    // No positions to resolve: nothing fails on a well-formed size.
    assert_eq!(mmr_position_to_k_index(&vec![], 11), Ok(vec![]));
}
