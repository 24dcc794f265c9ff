use beefy_translator::error::Error;
use beefy_translator::numeric::{H256, U256};
use beefy_translator::source::{BeefyNextAuthoritySet, ConsensusState};
use beefy_translator::translate::{
    consensus_state_from_wire, consensus_state_to_wire, intermediate_state_from_wire,
};
use beefy_translator::wire;

fn h(b: u8) -> H256 {
    H256 { bytes: [b; 32] }
}

fn u(x: u64) -> U256 {
    U256 { lo: x as u128, hi: 0 }
}

#[test]
fn test_consensus_state_round_trip() {
    let state = ConsensusState {
        mmr_root_hash: h(0x77),
        latest_beefy_height: 123456,
        current_authorities: BeefyNextAuthoritySet { id: 41, len: 300, root: h(0x10) },
        next_authorities: BeefyNextAuthoritySet { id: 42, len: 301, root: h(0x20) },
    };
    let wire_state = consensus_state_to_wire(&state);
    assert_eq!(wire_state.latest_height, u(123456));
    // The activation block is not tracked by the source state: reset, not
    // carried.
    assert_eq!(wire_state.beefy_activation_block, u(0));

    let back = consensus_state_from_wire(&wire_state).unwrap();
    // Latest height and both authority sets survive the round trip exactly.
    assert_eq!(back.latest_beefy_height, state.latest_beefy_height);
    assert_eq!(back.current_authorities, state.current_authorities);
    assert_eq!(back.next_authorities, state.next_authorities);
    // The MMR root hash is a known lossy field: explicitly reset to zero.
    assert_eq!(back.mmr_root_hash, H256 { bytes: [0; 32] });
}

#[test]
fn test_consensus_state_narrowing_overflow() {
    let mut wire_state = consensus_state_to_wire(&ConsensusState {
        mmr_root_hash: h(0),
        latest_beefy_height: 1,
        current_authorities: BeefyNextAuthoritySet { id: 1, len: 1, root: h(1) },
        next_authorities: BeefyNextAuthoritySet { id: 2, len: 2, root: h(2) },
    });
    // A height beyond 32 bits must fail, not truncate.
    wire_state.latest_height = u(u32::MAX as u64 + 1);
    assert_eq!(consensus_state_from_wire(&wire_state), Err(Error::IntegerOverflow));

    wire_state.latest_height = u(7);
    wire_state.current_authority_set.id = U256 { lo: 0, hi: 1 };
    assert_eq!(consensus_state_from_wire(&wire_state), Err(Error::IntegerOverflow));

    wire_state.current_authority_set.id = u(1);
    wire_state.next_authority_set.len = u(u32::MAX as u64 + 5);
    assert_eq!(consensus_state_from_wire(&wire_state), Err(Error::IntegerOverflow));

    wire_state.next_authority_set.len = u(2);
    assert!(consensus_state_from_wire(&wire_state).is_ok());
}

#[test]
fn test_intermediate_state_mapping() {
    let wire_state = wire::IntermediateState {
        state_machine_id: u(2000),
        height: u(50000),
        commitment: wire::StateCommitment { timestamp: u(1_700_000_000), state_root: h(0x5a) },
    };
    let local = intermediate_state_from_wire(&wire_state).unwrap();
    assert_eq!(local.height.state_machine_id, 2000);
    assert_eq!(local.height.height, 50000);
    assert_eq!(local.commitment.timestamp, 1_700_000_000);
    assert_eq!(local.commitment.commitment, h(0x5a));
}

#[test]
fn test_intermediate_state_narrowing_overflow() {
    let good = wire::IntermediateState {
        state_machine_id: u(1),
        height: u(2),
        commitment: wire::StateCommitment { timestamp: u(3), state_root: h(0) },
    };

    let mut bad = good;
    bad.height = u(u32::MAX as u64 + 1);
    assert_eq!(intermediate_state_from_wire(&bad), Err(Error::IntegerOverflow));

    let mut bad = good;
    bad.state_machine_id = U256 { lo: 0, hi: 3 };
    assert_eq!(intermediate_state_from_wire(&bad), Err(Error::IntegerOverflow));

    let mut bad = good;
    bad.commitment.timestamp = U256 { lo: u64::MAX as u128 + 1, hi: 0 };
    assert_eq!(intermediate_state_from_wire(&bad), Err(Error::IntegerOverflow));
}

#[test]
fn test_u256_conversions() {
    assert_eq!(U256::from_u32(9).lo, 9);
    assert_eq!(U256::from_u64(u64::MAX).lo, u64::MAX as u128);
    assert_eq!(U256::zero(), u(0));
    assert_eq!(U256::from_u64(77).try_to_u32(), Ok(77));
    assert_eq!(U256::from_u64(77).try_to_u64(), Ok(77));
    assert_eq!(
        U256::from_u64(u32::MAX as u64 + 1).try_to_u32(),
        Err(Error::IntegerOverflow)
    );
    assert_eq!(
        (U256 { lo: 0, hi: 1 }).try_to_u64(),
        Err(Error::IntegerOverflow)
    );
    assert_eq!(H256::zero(), H256 { bytes: [0u8; 32] });
}
