//! The canonical message format consumed by the on-chain verifier: nested
//! sequences of fixed-width integers and fixed-length hash values, modelled
//! as plain values.  Every numeric field is carried as a 256-bit integer, as
//! the verifier's schema does.

use vstd::prelude::*;

use crate::numeric::{H256, U256};

verus! {

/// One named payload entry of the translated finality commitment.
#[derive(Clone, Debug, PartialEq, Eq)]
pub struct Payload {
    pub id: [u8; 2],
    pub data: Vec<u8>,
}

#[verifier::ext_equal]
pub struct PayloadView {
    pub id: [u8; 2],
    pub data: Seq<u8>,
}

impl View for Payload {
    type V = PayloadView;

    open spec fn view(&self) -> PayloadView {
        PayloadView { id: self.id, data: self.data@ }
    }
}

/// The translated finality commitment.
#[derive(Clone, Debug, PartialEq, Eq)]
pub struct Commitment {
    pub payload: Vec<Payload>,
    pub block_number: U256,
    pub validator_set_id: U256,
}

#[verifier::ext_equal]
pub struct CommitmentView {
    pub payload: Seq<PayloadView>,
    pub block_number: U256,
    pub validator_set_id: U256,
}

impl View for Commitment {
    type V = CommitmentView;

    open spec fn view(&self) -> CommitmentView {
        CommitmentView {
            payload: self.payload@.map_values(|p: Payload| p@),
            block_number: self.block_number,
            validator_set_id: self.validator_set_id,
        }
    }
}

/// One translated vote: signature bytes and authority index, re-encoded
/// verbatim and in order.
#[derive(Clone, Debug, PartialEq, Eq)]
pub struct Vote {
    pub signature: Vec<u8>,
    pub authority_index: U256,
}

#[verifier::ext_equal]
pub struct VoteView {
    pub signature: Seq<u8>,
    pub authority_index: U256,
}

impl View for Vote {
    type V = VoteView;

    open spec fn view(&self) -> VoteView {
        VoteView { signature: self.signature@, authority_index: self.authority_index }
    }
}

/// The translated signed commitment.
#[derive(Clone, Debug, PartialEq, Eq)]
pub struct SignedCommitment {
    pub commitment: Commitment,
    pub votes: Vec<Vote>,
}

#[verifier::ext_equal]
pub struct SignedCommitmentView {
    pub commitment: CommitmentView,
    pub votes: Seq<VoteView>,
}

impl View for SignedCommitment {
    type V = SignedCommitmentView;

    open spec fn view(&self) -> SignedCommitmentView {
        SignedCommitmentView {
            commitment: self.commitment@,
            votes: self.votes@.map_values(|v: Vote| v@),
        }
    }
}

/// The verifier's representation of an authority-set commitment.
#[derive(Clone, Copy, Debug, PartialEq, Eq)]
pub struct AuthoritySetCommitment {
    pub id: U256,
    pub len: U256,
    pub root: H256,
}

/// The translated latest MMR leaf, including the k-index that tells the
/// verifier where this leaf sits among its siblings.
#[derive(Clone, Copy, Debug, PartialEq, Eq)]
pub struct BeefyMmrLeaf {
    pub version: U256,
    pub parent_number: U256,
    pub parent_hash: H256,
    pub next_authority_set: AuthoritySetCommitment,
    pub extra: H256,
    pub k_index: U256,
}

/// One (k-index, sibling hash) pair of an inclusion-proof layer.
#[derive(Clone, Copy, Debug, PartialEq, Eq)]
pub struct Node {
    pub k_index: U256,
    pub node: H256,
}

/// A multi-layer inclusion proof in wire form: layer order and, within each
/// layer, element order are those of the source.
pub open spec fn node_layers_view(layers: Seq<Vec<Node>>) -> Seq<Seq<Node>> {
    layers.map_values(|l: Vec<Node>| l@)
}

/// The translated relay-chain finality proof.
#[derive(Clone, Debug, PartialEq, Eq)]
pub struct RelayChainProof {
    pub signed_commitment: SignedCommitment,
    pub latest_mmr_leaf: BeefyMmrLeaf,
    pub mmr_proof: Vec<H256>,
    pub proof: Vec<Vec<Node>>,
}

#[verifier::ext_equal]
pub struct RelayChainProofView {
    pub signed_commitment: SignedCommitmentView,
    pub latest_mmr_leaf: BeefyMmrLeaf,
    pub mmr_proof: Seq<H256>,
    pub proof: Seq<Seq<Node>>,
}

impl View for RelayChainProof {
    type V = RelayChainProofView;

    open spec fn view(&self) -> RelayChainProofView {
        RelayChainProofView {
            signed_commitment: self.signed_commitment@,
            latest_mmr_leaf: self.latest_mmr_leaf,
            mmr_proof: self.mmr_proof@,
            proof: node_layers_view(self.proof@),
        }
    }
}

/// One translated parachain entry.
#[derive(Clone, Debug, PartialEq, Eq)]
pub struct Parachain {
    pub index: U256,
    pub id: U256,
    pub header: Vec<u8>,
}

#[verifier::ext_equal]
pub struct ParachainView {
    pub index: U256,
    pub id: U256,
    pub header: Seq<u8>,
}

impl View for Parachain {
    type V = ParachainView;

    open spec fn view(&self) -> ParachainView {
        ParachainView { index: self.index, id: self.id, header: self.header@ }
    }
}

/// The translated parachain-inclusion proof.
#[derive(Clone, Debug, PartialEq, Eq)]
pub struct ParachainProof {
    pub parachains: Vec<Parachain>,
    pub proof: Vec<Vec<Node>>,
}

#[verifier::ext_equal]
pub struct ParachainProofView {
    pub parachains: Seq<ParachainView>,
    pub proof: Seq<Seq<Node>>,
}

impl View for ParachainProof {
    type V = ParachainProofView;

    open spec fn view(&self) -> ParachainProofView {
        ParachainProofView {
            parachains: self.parachains@.map_values(|p: Parachain| p@),
            proof: node_layers_view(self.proof@),
        }
    }
}

/// The full translated consensus proof.
#[derive(Clone, Debug, PartialEq, Eq)]
pub struct BeefyConsensusProof {
    pub relay: RelayChainProof,
    pub parachain: ParachainProof,
}

#[verifier::ext_equal]
pub struct BeefyConsensusProofView {
    pub relay: RelayChainProofView,
    pub parachain: ParachainProofView,
}

impl View for BeefyConsensusProof {
    type V = BeefyConsensusProofView;

    open spec fn view(&self) -> BeefyConsensusProofView {
        BeefyConsensusProofView { relay: self.relay@, parachain: self.parachain@ }
    }
}

/// The verifier's consensus state record.
#[derive(Clone, Copy, Debug, PartialEq, Eq)]
pub struct BeefyConsensusState {
    pub latest_height: U256,
    pub beefy_activation_block: U256,
    pub current_authority_set: AuthoritySetCommitment,
    pub next_authority_set: AuthoritySetCommitment,
}

/// The verifier's commitment to a dependent chain's state at a height.
#[derive(Clone, Copy, Debug, PartialEq, Eq)]
pub struct StateCommitment {
    pub timestamp: U256,
    pub state_root: H256,
}

/// A checkpoint of a dependent chain, proven via the parachain inclusion
/// proof.
#[derive(Clone, Copy, Debug, PartialEq, Eq)]
pub struct IntermediateState {
    pub state_machine_id: U256,
    pub height: U256,
    pub commitment: StateCommitment,
}

} // verus!
