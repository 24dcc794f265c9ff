//! The submission pipeline's own record of a proven checkpoint, written as
//! part of a state-update transaction.

use vstd::prelude::*;

use crate::numeric::H256;

verus! {

/// Identifies a height of a dependent state machine.
#[derive(Clone, Copy, Debug, PartialEq, Eq)]
pub struct StateMachineHeight {
    pub state_machine_id: u32,
    pub height: u32,
}

/// A commitment to a dependent chain's state: its timestamp and state root.
#[derive(Clone, Copy, Debug, PartialEq, Eq)]
pub struct StateCommitment {
    pub timestamp: u64,
    pub commitment: H256,
}

/// A proven checkpoint of a dependent chain.
#[derive(Clone, Copy, Debug, PartialEq, Eq)]
pub struct IntermediateState {
    pub height: StateMachineHeight,
    pub commitment: StateCommitment,
}

} // verus!
