use beefy_translator::error::Error;
use beefy_translator::numeric::{H256, U256};
use beefy_translator::source::{
    BeefyNextAuthoritySet, Commitment, ConsensusMessage, LeafProof, MmrLeaf, MmrProof, Parachain,
    ParachainProof, PayloadEntry, SignedCommitment, Vote,
};
use beefy_translator::translate::{
    authority_set_commitment, encode_proof_layers, find_mmr_root_payload,
    translate_consensus_message, translate_mmr_proof, translate_parachain_proof,
};

fn h(b: u8) -> H256 {
    H256 { bytes: [b; 32] }
}

fn u(x: u64) -> U256 {
    U256 { lo: x as u128, hi: 0 }
}

fn sample_mmr_proof(leaf_indices: Vec<u64>, payload: Vec<PayloadEntry>) -> MmrProof {
    MmrProof {
        signed_commitment: SignedCommitment {
            commitment: Commitment { payload, block_number: 77, validator_set_id: 5 },
            signatures: vec![
                Vote { signature: vec![1, 2, 3], index: 4 },
                Vote { signature: vec![9, 8], index: 0 },
            ],
        },
        latest_mmr_leaf: MmrLeaf {
            version: 0,
            parent_number: 76,
            parent_hash: h(0xaa),
            beefy_next_authority_set: BeefyNextAuthoritySet { id: 6, len: 100, root: h(0xbb) },
            leaf_extra: h(0xcc),
        },
        mmr_proof: LeafProof { leaf_indices, items: vec![h(0x11), h(0x22)] },
        authority_proof: vec![vec![(0, h(0x31)), (1, h(0x32))], vec![(1, h(0x41))]],
    }
}

fn mmr_root_entry() -> PayloadEntry {
    PayloadEntry { id: *b"mh", data: vec![0xde; 32] }
}

#[test]
fn test_relay_proof_assembly() {
    let proof = sample_mmr_proof(vec![3], vec![mmr_root_entry()]);
    let relay = translate_mmr_proof(&proof).unwrap();

    // Leaf 3 is the last leaf of the MMR that exactly contains it
    // (7 nodes, one peak of height 2): k-index 3.
    assert_eq!(relay.latest_mmr_leaf.k_index, u(3));
    assert_eq!(relay.latest_mmr_leaf.version, u(0));
    assert_eq!(relay.latest_mmr_leaf.parent_number, u(76));
    assert_eq!(relay.latest_mmr_leaf.parent_hash, h(0xaa));
    assert_eq!(relay.latest_mmr_leaf.extra, h(0xcc));
    assert_eq!(relay.latest_mmr_leaf.next_authority_set.id, u(6));
    assert_eq!(relay.latest_mmr_leaf.next_authority_set.len, u(100));
    assert_eq!(relay.latest_mmr_leaf.next_authority_set.root, h(0xbb));

    // The payload is reduced to the single MMR-root entry.
    assert_eq!(relay.signed_commitment.commitment.payload.len(), 1);
    assert_eq!(relay.signed_commitment.commitment.payload[0].id, *b"mh");
    assert_eq!(relay.signed_commitment.commitment.payload[0].data, vec![0xde; 32]);
    assert_eq!(relay.signed_commitment.commitment.block_number, u(77));
    assert_eq!(relay.signed_commitment.commitment.validator_set_id, u(5));

    // Votes verbatim, order preserved.
    assert_eq!(relay.signed_commitment.votes.len(), 2);
    assert_eq!(relay.signed_commitment.votes[0].signature, vec![1, 2, 3]);
    assert_eq!(relay.signed_commitment.votes[0].authority_index, u(4));
    assert_eq!(relay.signed_commitment.votes[1].signature, vec![9, 8]);
    assert_eq!(relay.signed_commitment.votes[1].authority_index, u(0));

    // Raw proof items pass through unchanged.
    assert_eq!(relay.mmr_proof, vec![h(0x11), h(0x22)]);

    // Authority proof layers relabelled in order.
    assert_eq!(relay.proof.len(), 2);
    assert_eq!(relay.proof[0].len(), 2);
    assert_eq!(relay.proof[0][0].k_index, u(0));
    assert_eq!(relay.proof[0][0].node, h(0x31));
    assert_eq!(relay.proof[0][1].k_index, u(1));
    assert_eq!(relay.proof[0][1].node, h(0x32));
    assert_eq!(relay.proof[1].len(), 1);
    assert_eq!(relay.proof[1][0].k_index, u(1));
    assert_eq!(relay.proof[1][0].node, h(0x41));
}

#[test]
fn test_single_leaf_relay_proof_has_k_index_zero() {
    // Leaf 0 in a 1-leaf MMR: position 0, k-index 0, and with no siblings
    // the assembled inclusion proof has zero layers.
    let mut proof = sample_mmr_proof(vec![0], vec![mmr_root_entry()]);
    proof.mmr_proof.items = vec![];
    proof.authority_proof = vec![];
    let relay = translate_mmr_proof(&proof).unwrap();
    assert_eq!(relay.latest_mmr_leaf.k_index, u(0));
    assert!(relay.mmr_proof.is_empty());
    assert!(relay.proof.is_empty());
}

#[test]
fn test_empty_leaf_indices_is_malformed() {
    // Never defaults to leaf 0.
    let proof = sample_mmr_proof(vec![], vec![mmr_root_entry()]);
    assert_eq!(translate_mmr_proof(&proof), Err(Error::MalformedProof));
}

#[test]
fn test_multi_leaf_proof_is_unsupported() {
    let proof = sample_mmr_proof(vec![1, 2], vec![mmr_root_entry()]);
    assert_eq!(translate_mmr_proof(&proof), Err(Error::UnsupportedShape));
}

#[test]
fn test_missing_mmr_root_payload() {
    let other = PayloadEntry { id: *b"xy", data: vec![1, 2, 3] };
    let proof = sample_mmr_proof(vec![3], vec![other]);
    assert_eq!(translate_mmr_proof(&proof), Err(Error::MissingPayload));
}

#[test]
fn test_payload_lookup_finds_entry_among_others() {
    let payload = vec![
        PayloadEntry { id: *b"ab", data: vec![1] },
        PayloadEntry { id: *b"mh", data: vec![7, 7] },
        PayloadEntry { id: *b"mh", data: vec![8] },
    ];
    let found = find_mmr_root_payload(&payload).unwrap();
    assert_eq!(found.id, *b"mh");
    assert_eq!(found.data, vec![7, 7]);
    assert!(find_mmr_root_payload(&vec![]).is_none());
}

fn sample_message() -> ConsensusMessage {
    ConsensusMessage {
        mmr: sample_mmr_proof(vec![3], vec![mmr_root_entry()]),
        parachain: ParachainProof {
            parachains: vec![
                Parachain { index: 0, para_id: 2000, header: vec![5, 6, 7] },
                Parachain { index: 1, para_id: 2001, header: vec![8] },
            ],
            proof: vec![vec![(0, h(0x51)), (1, h(0x52))]],
        },
    }
}

#[test]
fn test_translation_is_idempotent() {
    // Translating the same message twice yields identical output.
    let message = sample_message();
    let first = translate_consensus_message(&message).unwrap();
    let second = translate_consensus_message(&message).unwrap();
    assert_eq!(first, second);
}

#[test]
fn test_parachain_proof_preserves_order() {
    // Two parachain entries and one layer of two pairs survive the encoding
    // with every value readable back unchanged and in order.
    let message = sample_message();
    let translated = translate_parachain_proof(&message.parachain);
    assert_eq!(translated.parachains.len(), 2);
    assert_eq!(translated.parachains[0].index, u(0));
    assert_eq!(translated.parachains[0].id, u(2000));
    assert_eq!(translated.parachains[0].header, vec![5, 6, 7]);
    assert_eq!(translated.parachains[1].index, u(1));
    assert_eq!(translated.parachains[1].id, u(2001));
    assert_eq!(translated.parachains[1].header, vec![8]);
    assert_eq!(translated.proof.len(), 1);
    assert_eq!(translated.proof[0].len(), 2);
    assert_eq!(translated.proof[0][0].k_index, u(0));
    assert_eq!(translated.proof[0][0].node, h(0x51));
    assert_eq!(translated.proof[0][1].k_index, u(1));
    assert_eq!(translated.proof[0][1].node, h(0x52));
}

#[test]
fn test_consensus_message_translation() {
    let message = sample_message();
    let proof = translate_consensus_message(&message).unwrap();
    assert_eq!(proof.relay.latest_mmr_leaf.k_index, u(3));
    assert_eq!(proof.parachain.parachains.len(), 2);
    // The relay error propagates through the top-level translation.
    let bad = ConsensusMessage {
        mmr: sample_mmr_proof(vec![], vec![mmr_root_entry()]),
        parachain: message.parachain,
    };
    assert_eq!(translate_consensus_message(&bad), Err(Error::MalformedProof));
}

#[test]
fn test_authority_set_encoder_widens() {
    let set = BeefyNextAuthoritySet { id: u64::MAX, len: u32::MAX, root: h(0x99) };
    let wire = authority_set_commitment(&set);
    assert_eq!(wire.id, u(u64::MAX));
    assert_eq!(wire.len, u(u32::MAX as u64));
    assert_eq!(wire.root, h(0x99));
}

#[test]
fn test_encode_proof_layers_relabels_only() {
    let layers = vec![vec![(5u64, h(1)), (2u64, h(2))], vec![], vec![(0u64, h(3))]];
    let encoded = encode_proof_layers(&layers);
    assert_eq!(encoded.len(), 3);
    assert_eq!(encoded[0].len(), 2);
    // Insertion order is kept even where indices are unsorted.
    assert_eq!(encoded[0][0].k_index, u(5));
    assert_eq!(encoded[0][0].node, h(1));
    assert_eq!(encoded[0][1].k_index, u(2));
    assert_eq!(encoded[0][1].node, h(2));
    assert!(encoded[1].is_empty());
    assert_eq!(encoded[2][0].k_index, u(0));
    assert_eq!(encoded[2][0].node, h(3));
}
