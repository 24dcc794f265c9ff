//! The source chain's representation of a finality proof: the consensus
//! message produced by the BEEFY-style finality gadget, modelled as plain
//! values.  The translator consumes these and produces the wire types of
//! `crate::wire`.

use vstd::prelude::*;

use crate::numeric::H256;

verus! {

/// Commitment to a validator set: generation counter, cardinality and the
/// Merkle root of the authority public keys.
#[derive(Clone, Copy, Debug, PartialEq, Eq)]
pub struct BeefyNextAuthoritySet {
    pub id: u64,
    pub len: u32,
    pub root: H256,
}

/// One named payload entry of a finality commitment, keyed by a 2-byte
/// identifier.
#[derive(Clone, Debug, PartialEq, Eq)]
pub struct PayloadEntry {
    pub id: [u8; 2],
    pub data: Vec<u8>,
}

#[verifier::ext_equal]
pub struct PayloadEntryView {
    pub id: [u8; 2],
    pub data: Seq<u8>,
}

impl View for PayloadEntry {
    type V = PayloadEntryView;

    open spec fn view(&self) -> PayloadEntryView {
        PayloadEntryView { id: self.id, data: self.data@ }
    }
}

/// A finality commitment: named payload entries, the committed block number
/// and the id of the validator set that signed.
#[derive(Clone, Debug, PartialEq, Eq)]
pub struct Commitment {
    pub payload: Vec<PayloadEntry>,
    pub block_number: u32,
    pub validator_set_id: u64,
}

#[verifier::ext_equal]
pub struct CommitmentView {
    pub payload: Seq<PayloadEntryView>,
    pub block_number: u32,
    pub validator_set_id: u64,
}

impl View for Commitment {
    type V = CommitmentView;

    open spec fn view(&self) -> CommitmentView {
        CommitmentView {
            payload: self.payload@.map_values(|e: PayloadEntry| e@),
            block_number: self.block_number,
            validator_set_id: self.validator_set_id,
        }
    }
}

/// One validator's vote: its signature bytes and its index in the authority
/// set.
#[derive(Clone, Debug, PartialEq, Eq)]
pub struct Vote {
    pub signature: Vec<u8>,
    pub index: u32,
}

#[verifier::ext_equal]
pub struct VoteView {
    pub signature: Seq<u8>,
    pub index: u32,
}

impl View for Vote {
    type V = VoteView;

    open spec fn view(&self) -> VoteView {
        VoteView { signature: self.signature@, index: self.index }
    }
}

/// A finality commitment together with the votes that signed it.
#[derive(Clone, Debug, PartialEq, Eq)]
pub struct SignedCommitment {
    pub commitment: Commitment,
    pub signatures: Vec<Vote>,
}

#[verifier::ext_equal]
pub struct SignedCommitmentView {
    pub commitment: CommitmentView,
    pub signatures: Seq<VoteView>,
}

impl View for SignedCommitment {
    type V = SignedCommitmentView;

    open spec fn view(&self) -> SignedCommitmentView {
        SignedCommitmentView {
            commitment: self.commitment@,
            signatures: self.signatures@.map_values(|v: Vote| v@),
        }
    }
}

/// The latest leaf of the MMR: parent block number and hash, the next
/// authority set and opaque extra data.
#[derive(Clone, Copy, Debug, PartialEq, Eq)]
pub struct MmrLeaf {
    pub version: u8,
    pub parent_number: u32,
    pub parent_hash: H256,
    pub beefy_next_authority_set: BeefyNextAuthoritySet,
    pub leaf_extra: H256,
}

/// The raw MMR inclusion proof: the indices of the leaves being proven and
/// the sibling hashes needed to recompute the root.
#[derive(Clone, Debug, PartialEq, Eq)]
pub struct LeafProof {
    pub leaf_indices: Vec<u64>,
    pub items: Vec<H256>,
}

#[verifier::ext_equal]
pub struct LeafProofView {
    pub leaf_indices: Seq<u64>,
    pub items: Seq<H256>,
}

impl View for LeafProof {
    type V = LeafProofView;

    open spec fn view(&self) -> LeafProofView {
        LeafProofView { leaf_indices: self.leaf_indices@, items: self.items@ }
    }
}

/// A multi-layer inclusion proof: one layer per tree level, each layer an
/// ordered sequence of (sibling index, sibling hash) pairs.
pub open spec fn pair_layers_view(layers: Seq<Vec<(u64, H256)>>) -> Seq<Seq<(u64, H256)>> {
    layers.map_values(|l: Vec<(u64, H256)>| l@)
}

/// The MMR side of a consensus message: signed commitment, latest leaf, raw
/// proof items and the authority-set inclusion proof.
#[derive(Clone, Debug, PartialEq, Eq)]
pub struct MmrProof {
    pub signed_commitment: SignedCommitment,
    pub latest_mmr_leaf: MmrLeaf,
    pub mmr_proof: LeafProof,
    pub authority_proof: Vec<Vec<(u64, H256)>>,
}

#[verifier::ext_equal]
pub struct MmrProofView {
    pub signed_commitment: SignedCommitmentView,
    pub latest_mmr_leaf: MmrLeaf,
    pub mmr_proof: LeafProofView,
    pub authority_proof: Seq<Seq<(u64, H256)>>,
}

impl View for MmrProof {
    type V = MmrProofView;

    open spec fn view(&self) -> MmrProofView {
        MmrProofView {
            signed_commitment: self.signed_commitment@,
            latest_mmr_leaf: self.latest_mmr_leaf,
            mmr_proof: self.mmr_proof@,
            authority_proof: pair_layers_view(self.authority_proof@),
        }
    }
}

/// One parachain entry: its index within the batch, its numeric chain id and
/// its opaque header bytes.
#[derive(Clone, Debug, PartialEq, Eq)]
pub struct Parachain {
    pub index: u64,
    pub para_id: u32,
    pub header: Vec<u8>,
}

#[verifier::ext_equal]
pub struct ParachainView {
    pub index: u64,
    pub para_id: u32,
    pub header: Seq<u8>,
}

impl View for Parachain {
    type V = ParachainView;

    open spec fn view(&self) -> ParachainView {
        ParachainView { index: self.index, para_id: self.para_id, header: self.header@ }
    }
}

/// The parachain side of a consensus message: the parachain entries and the
/// header inclusion proof.
#[derive(Clone, Debug, PartialEq, Eq)]
pub struct ParachainProof {
    pub parachains: Vec<Parachain>,
    pub proof: Vec<Vec<(u64, H256)>>,
}

#[verifier::ext_equal]
pub struct ParachainProofView {
    pub parachains: Seq<ParachainView>,
    pub proof: Seq<Seq<(u64, H256)>>,
}

impl View for ParachainProof {
    type V = ParachainProofView;

    open spec fn view(&self) -> ParachainProofView {
        ParachainProofView {
            parachains: self.parachains@.map_values(|p: Parachain| p@),
            proof: pair_layers_view(self.proof@),
        }
    }
}

/// The full consensus message fetched from the source chain.
#[derive(Clone, Debug, PartialEq, Eq)]
pub struct ConsensusMessage {
    pub mmr: MmrProof,
    pub parachain: ParachainProof,
}

#[verifier::ext_equal]
pub struct ConsensusMessageView {
    pub mmr: MmrProofView,
    pub parachain: ParachainProofView,
}

impl View for ConsensusMessage {
    type V = ConsensusMessageView;

    open spec fn view(&self) -> ConsensusMessageView {
        ConsensusMessageView { mmr: self.mmr@, parachain: self.parachain@ }
    }
}

/// The source chain's view of the light client's state.
#[derive(Clone, Copy, Debug, PartialEq, Eq)]
pub struct ConsensusState {
    pub mmr_root_hash: H256,
    pub latest_beefy_height: u32,
    pub current_authorities: BeefyNextAuthoritySet,
    pub next_authorities: BeefyNextAuthoritySet,
}

} // verus!
