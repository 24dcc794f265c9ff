//! The translation itself: the proof-layer encoder, the authority-set
//! encoder, the relay and parachain proof assemblers, the top-level consensus
//! proof translator, and the narrower state translations used by the
//! verifier's state-update path.
//!
//! Every mapping is a pure function of its input; the contracts pin each
//! output field, so translating the same message twice yields identical
//! output.

use vstd::prelude::*;

use crate::error::Error;
use crate::numeric::{h256_is_zero, H256, U256};
use crate::position::{
    leaf_index_to_mmr_size, leaf_index_to_pos, mmr_position_to_k_index, spec_leaf_index_to_mmr_size,
    spec_leaf_index_to_pos, spec_pos_k_index,
};
use crate::source;
use crate::state;
use crate::wire;

verus! {

/// The fixed 2-byte identifier (the bytes of `"mh"`) under which the
/// finality commitment carries the MMR root.
pub open spec fn is_mmr_root_id(id: [u8; 2]) -> bool {
    id@[0] == 0x6du8 && id@[1] == 0x68u8
}

/// First payload entry at or after `i` that carries the MMR-root identifier.
pub open spec fn find_payload_from(payload: Seq<source::PayloadEntryView>, i: int) -> Option<
    source::PayloadEntryView,
>
    decreases payload.len() - i,
{
    if i < 0 || i >= payload.len() {
        None
    } else if is_mmr_root_id(payload[i].id) {
        Some(payload[i])
    } else {
        find_payload_from(payload, i + 1)
    }
}

/// The MMR-root payload entry of a commitment's payload list, if present.
pub open spec fn spec_find_mmr_root_payload(payload: Seq<source::PayloadEntryView>) -> Option<
    source::PayloadEntryView,
> {
    find_payload_from(payload, 0)
}

/// A vote re-encoded verbatim: same signature bytes, widened index.
pub open spec fn spec_wire_vote(v: source::VoteView) -> wire::VoteView {
    wire::VoteView { signature: v.signature, authority_index: U256::spec_of(v.index as int) }
}

/// All votes re-encoded, order preserved.
pub open spec fn spec_wire_votes(vs: Seq<source::VoteView>) -> Seq<wire::VoteView> {
    vs.map_values(|v: source::VoteView| spec_wire_vote(v))
}

/// One proof-layer element relabelled: the sibling index widened, the hash
/// unchanged.
pub open spec fn spec_encode_node(p: (u64, H256)) -> wire::Node {
    wire::Node { k_index: U256::spec_of(p.0 as int), node: p.1 }
}

/// One layer relabelled element for element, order preserved.
pub open spec fn spec_encode_layer(l: Seq<(u64, H256)>) -> Seq<wire::Node> {
    l.map_values(|p: (u64, H256)| spec_encode_node(p))
}

/// All layers relabelled, layer order preserved.
pub open spec fn spec_encode_layers(ls: Seq<Seq<(u64, H256)>>) -> Seq<Seq<wire::Node>> {
    ls.map_values(|l: Seq<(u64, H256)>| spec_encode_layer(l))
}

/// The authority-set commitment mapped field for field, ids widened.
pub open spec fn spec_authority_set(a: source::BeefyNextAuthoritySet) -> wire::AuthoritySetCommitment {
    wire::AuthoritySetCommitment {
        id: U256::spec_of(a.id as int),
        len: U256::spec_of(a.len as int),
        root: a.root,
    }
}

/// One parachain entry copied verbatim, numeric fields widened.
pub open spec fn spec_wire_parachain(p: source::ParachainView) -> wire::ParachainView {
    wire::ParachainView {
        index: U256::spec_of(p.index as int),
        id: U256::spec_of(p.para_id as int),
        header: p.header,
    }
}

/// The parachain proof assembled: entries verbatim and in order, the
/// inclusion proof relabelled layer for layer.
pub open spec fn spec_parachain_proof(p: source::ParachainProofView) -> wire::ParachainProofView {
    wire::ParachainProofView {
        parachains: p.parachains.map_values(|c: source::ParachainView| spec_wire_parachain(c)),
        proof: spec_encode_layers(p.proof),
    }
}

/// The single leaf index a relay proof speaks about.
pub open spec fn relay_leaf_index(m: source::MmrProofView) -> u64 {
    m.mmr_proof.leaf_indices[0]
}

/// The k-index of that leaf, computed against the size of the MMR that
/// exactly contains it.
pub open spec fn relay_k_index(m: source::MmrProofView) -> Option<nat> {
    let i = relay_leaf_index(m) as nat;
    spec_pos_k_index(
        spec_leaf_index_to_pos(i) as nat,
        spec_leaf_index_to_mmr_size(i) as nat,
    )
}

/// Why a relay proof translation fails, or `None` when it succeeds: an empty
/// leaf-index list or an unresolvable position is malformed, more than one
/// leaf is unsupported, and a commitment without the MMR-root entry lacks its
/// payload.
pub open spec fn relay_error(m: source::MmrProofView) -> Option<Error> {
    if m.mmr_proof.leaf_indices.len() == 0 {
        Some(Error::MalformedProof)
    } else if m.mmr_proof.leaf_indices.len() > 1 {
        Some(Error::UnsupportedShape)
    } else if relay_k_index(m) is None {
        Some(Error::MalformedProof)
    } else if spec_find_mmr_root_payload(m.signed_commitment.commitment.payload) is None {
        Some(Error::MissingPayload)
    } else {
        None
    }
}

/// The translated relay-chain proof, meaningful when `relay_error` is `None`.
pub open spec fn spec_relay_proof(m: source::MmrProofView) -> wire::RelayChainProofView {
    let entry = spec_find_mmr_root_payload(m.signed_commitment.commitment.payload)->Some_0;
    let k = relay_k_index(m)->Some_0;
    wire::RelayChainProofView {
        signed_commitment: wire::SignedCommitmentView {
            commitment: wire::CommitmentView {
                payload: seq![wire::PayloadView { id: entry.id, data: entry.data }],
                block_number: U256::spec_of(m.signed_commitment.commitment.block_number as int),
                validator_set_id: U256::spec_of(
                    m.signed_commitment.commitment.validator_set_id as int,
                ),
            },
            votes: spec_wire_votes(m.signed_commitment.signatures),
        },
        latest_mmr_leaf: wire::BeefyMmrLeaf {
            version: U256::spec_of(0),
            parent_number: U256::spec_of(m.latest_mmr_leaf.parent_number as int),
            parent_hash: m.latest_mmr_leaf.parent_hash,
            next_authority_set: spec_authority_set(m.latest_mmr_leaf.beefy_next_authority_set),
            extra: m.latest_mmr_leaf.leaf_extra,
            k_index: U256::spec_of(k as int),
        },
        mmr_proof: m.mmr_proof.items,
        proof: spec_encode_layers(m.authority_proof),
    }
}

fn copy_bytes(v: &Vec<u8>) -> (r: Vec<u8>)
    ensures
        r@ == v@,
{
    let mut out: Vec<u8> = Vec::new();
    let mut i: usize = 0;
    while i < v.len()
        invariant
            i <= v@.len(),
            out@.len() == i,
            forall|j: int| 0 <= j < i ==> out@[j] == v@[j],
        decreases v@.len() - i,
    {
        out.push(v[i]);
        i = i + 1;
    }
    proof {
        assert(out@ =~= v@);
    }
    out
}

fn copy_hashes(v: &Vec<H256>) -> (r: Vec<H256>)
    ensures
        r@ == v@,
{
    let mut out: Vec<H256> = Vec::new();
    let mut i: usize = 0;
    while i < v.len()
        invariant
            i <= v@.len(),
            out@.len() == i,
            forall|j: int| 0 <= j < i ==> out@[j] == v@[j],
        decreases v@.len() - i,
    {
        out.push(v[i]);
        i = i + 1;
    }
    proof {
        assert(out@ =~= v@);
    }
    out
}

/// Looks up the MMR-root payload entry by its fixed identifier; `None` when
/// the commitment does not carry it.
pub fn find_mmr_root_payload(payload: &Vec<source::PayloadEntry>) -> (r: Option<
    source::PayloadEntry,
>)
    ensures
        r is Some <==> spec_find_mmr_root_payload(
            payload@.map_values(|e: source::PayloadEntry| e@),
        ) is Some,
        r is Some ==> r->Some_0@ == spec_find_mmr_root_payload(
            payload@.map_values(|e: source::PayloadEntry| e@),
        )->Some_0,
{
    let ghost s = payload@.map_values(|e: source::PayloadEntry| e@);
    let mut i: usize = 0;
    while i < payload.len()
        invariant
            i <= payload@.len(),
            s == payload@.map_values(|e: source::PayloadEntry| e@),
            find_payload_from(s, 0) == find_payload_from(s, i as int),
        decreases payload@.len() - i,
    {
        let e = &payload[i];
        if e.id[0] == 0x6d && e.id[1] == 0x68 {
            proof {
                assert(is_mmr_root_id(s[i as int].id));
            }
            let found = source::PayloadEntry { id: e.id, data: copy_bytes(&e.data) };
            proof {
                assert(found@ =~= s[i as int]);
            }
            return Some(found);
        }
        proof {
            assert(!is_mmr_root_id(s[i as int].id));
        }
        i = i + 1;
    }
    None
}

/// Re-encodes every vote verbatim, preserving order.
fn translate_votes(votes: &Vec<source::Vote>) -> (r: Vec<wire::Vote>)
    ensures
        r@.map_values(|v: wire::Vote| v@) == spec_wire_votes(
            votes@.map_values(|v: source::Vote| v@),
        ),
{
    let mut out: Vec<wire::Vote> = Vec::new();
    let mut i: usize = 0;
    while i < votes.len()
        invariant
            i <= votes@.len(),
            out@.len() == i,
            forall|j: int| 0 <= j < i ==> (#[trigger] out@[j])@ == spec_wire_vote(votes@[j]@),
        decreases votes@.len() - i,
    {
        let v = &votes[i];
        let signature = copy_bytes(&v.signature);
        out.push(wire::Vote { signature, authority_index: U256::from_u32(v.index) });
        proof {
            assert(out@[i as int]@ =~= spec_wire_vote(votes@[i as int]@));
        }
        i = i + 1;
    }
    proof {
        assert(out@.map_values(|v: wire::Vote| v@) =~~= spec_wire_votes(
            votes@.map_values(|v: source::Vote| v@),
        ));
    }
    out
}

/// Relabels a multi-layer inclusion proof into wire form.  A pure renaming:
/// no entry is reordered or dropped, since the verifier recomputes the root
/// by replaying layers in the given order.
pub fn encode_proof_layers(layers: &Vec<Vec<(u64, H256)>>) -> (r: Vec<Vec<wire::Node>>)
    ensures
        wire::node_layers_view(r@) == spec_encode_layers(source::pair_layers_view(layers@)),
{
    let mut out: Vec<Vec<wire::Node>> = Vec::new();
    let mut i: usize = 0;
    while i < layers.len()
        invariant
            i <= layers@.len(),
            out@.len() == i,
            forall|j: int| 0 <= j < i ==> (#[trigger] out@[j])@ == spec_encode_layer(layers@[j]@),
        decreases layers@.len() - i,
    {
        let layer = &layers[i];
        let mut wire_layer: Vec<wire::Node> = Vec::new();
        let mut j: usize = 0;
        while j < layer.len()
            invariant
                j <= layer@.len(),
                wire_layer@.len() == j,
                forall|t: int|
                    0 <= t < j ==> (#[trigger] wire_layer@[t]) == spec_encode_node(layer@[t]),
            decreases layer@.len() - j,
        {
            let p = layer[j];
            wire_layer.push(wire::Node { k_index: U256::from_u64(p.0), node: p.1 });
            j = j + 1;
        }
        proof {
            assert(wire_layer@ =~= spec_encode_layer(layers@[i as int]@));
        }
        out.push(wire_layer);
        i = i + 1;
    }
    proof {
        assert(wire::node_layers_view(out@) =~~= spec_encode_layers(
            source::pair_layers_view(layers@),
        ));
    }
    out
}

/// Maps a validator-set commitment into the verifier's representation,
/// widening without truncation.  No validation is performed here.
pub fn authority_set_commitment(set: &source::BeefyNextAuthoritySet) -> (r:
    wire::AuthoritySetCommitment)
    ensures
        r == spec_authority_set(*set),
{
    wire::AuthoritySetCommitment {
        id: U256::from_u64(set.id),
        len: U256::from_u32(set.len),
        root: set.root,
    }
}

/// Assembles the parachain-inclusion proof: entries copied verbatim and in
/// order, the inclusion proof relabelled layer for layer.
pub fn translate_parachain_proof(proof: &source::ParachainProof) -> (r: wire::ParachainProof)
    ensures
        r@ == spec_parachain_proof(proof@),
{
    let mut parachains: Vec<wire::Parachain> = Vec::new();
    let mut i: usize = 0;
    while i < proof.parachains.len()
        invariant
            i <= proof.parachains@.len(),
            parachains@.len() == i,
            forall|j: int|
                0 <= j < i ==> (#[trigger] parachains@[j])@ == spec_wire_parachain(
                    proof.parachains@[j]@,
                ),
        decreases proof.parachains@.len() - i,
    {
        let p = &proof.parachains[i];
        let header = copy_bytes(&p.header);
        parachains.push(
            wire::Parachain {
                index: U256::from_u64(p.index),
                id: U256::from_u32(p.para_id),
                header,
            },
        );
        proof {
            assert(parachains@[i as int]@ =~= spec_wire_parachain(proof.parachains@[i as int]@));
        }
        i = i + 1;
    }
    let result = wire::ParachainProof { parachains, proof: encode_proof_layers(&proof.proof) };
    proof {
        assert(result@ =~~= spec_parachain_proof(proof@));
    }
    result
}

/// Assembles the relay-chain proof from an MMR proof: computes the latest
/// leaf's k-index, extracts the MMR-root payload entry, re-encodes the votes
/// verbatim, relabels the authority-set proof layers and passes the raw MMR
/// proof items through unchanged.
///
/// Fails with `MalformedProof` on an empty leaf-index list (it never defaults
/// to leaf 0), with `UnsupportedShape` on a multi-leaf batched proof, and
/// with `MissingPayload` when the MMR-root entry is absent.
pub fn translate_mmr_proof(value: &source::MmrProof) -> (r: Result<wire::RelayChainProof, Error>)
    requires
        value.mmr_proof.leaf_indices@.len() == 1 ==> value.mmr_proof.leaf_indices@[0]
            < 0x7fff_ffff_ffff_ffff,
    ensures
        r is Ok <==> relay_error(value@) is None,
        r is Err ==> Some(r->Err_0) == relay_error(value@),
        r is Ok ==> r->Ok_0@ == spec_relay_proof(value@),
{
    if value.mmr_proof.leaf_indices.len() == 0 {
        return Err(Error::MalformedProof);
    }
    if value.mmr_proof.leaf_indices.len() > 1 {
        return Err(Error::UnsupportedShape);
    }
    let mmr_index = value.mmr_proof.leaf_indices[0];
    let pos = leaf_index_to_pos(mmr_index);
    let size = leaf_index_to_mmr_size(mmr_index);
    let mut positions: Vec<u64> = Vec::new();
    positions.push(pos);
    proof {
        assert(positions@.len() == 1 && positions@[0] == pos);
    }
    let k_index: u64;
    match mmr_position_to_k_index(&positions, size) {
        Ok(pairs) => {
            k_index = pairs[0].1;
        },
        Err(_) => {
            proof {
                if !crate::position::all_positions_resolve(positions@, size as nat) {
                    assert(spec_pos_k_index(positions@[0] as nat, size as nat) is None);
                }
                assert(relay_k_index(value@) is None);
            }
            return Err(Error::MalformedProof);
        },
    }
    let entry = match find_mmr_root_payload(&value.signed_commitment.commitment.payload) {
        Some(e) => e,
        None => {
            return Err(Error::MissingPayload);
        },
    };
    let mut payload: Vec<wire::Payload> = Vec::new();
    payload.push(wire::Payload { id: entry.id, data: entry.data });
    let commitment = wire::Commitment {
        payload,
        block_number: U256::from_u32(value.signed_commitment.commitment.block_number),
        validator_set_id: U256::from_u64(value.signed_commitment.commitment.validator_set_id),
    };
    let votes = translate_votes(&value.signed_commitment.signatures);
    let leaf = wire::BeefyMmrLeaf {
        version: U256::zero(),
        parent_number: U256::from_u32(value.latest_mmr_leaf.parent_number),
        parent_hash: value.latest_mmr_leaf.parent_hash,
        next_authority_set: authority_set_commitment(&value.latest_mmr_leaf.beefy_next_authority_set),
        extra: value.latest_mmr_leaf.leaf_extra,
        k_index: U256::from_u64(k_index),
    };
    let result = wire::RelayChainProof {
        signed_commitment: wire::SignedCommitment { commitment, votes },
        latest_mmr_leaf: leaf,
        mmr_proof: copy_hashes(&value.mmr_proof.items),
        proof: encode_proof_layers(&value.authority_proof),
    };
    proof {
        assert(result@.signed_commitment.commitment.payload =~~= spec_relay_proof(
            value@,
        ).signed_commitment.commitment.payload);
        assert(result@ =~~= spec_relay_proof(value@));
    }
    Ok(result)
}

/// Translates the full consensus message: the relay-chain proof assembled
/// from the MMR side, the parachain proof assembled from the parachain side.
pub fn translate_consensus_message(message: &source::ConsensusMessage) -> (r: Result<
    wire::BeefyConsensusProof,
    Error,
>)
    requires
        message.mmr.mmr_proof.leaf_indices@.len() == 1 ==> message.mmr.mmr_proof.leaf_indices@[0]
            < 0x7fff_ffff_ffff_ffff,
    ensures
        r is Ok <==> relay_error(message@.mmr) is None,
        r is Err ==> Some(r->Err_0) == relay_error(message@.mmr),
        r is Ok ==> r->Ok_0@.relay == spec_relay_proof(message@.mmr),
        r is Ok ==> r->Ok_0@.parachain == spec_parachain_proof(message@.parachain),
{
    let relay = match translate_mmr_proof(&message.mmr) {
        Ok(relay) => relay,
        Err(e) => {
            return Err(e);
        },
    };
    let parachain = translate_parachain_proof(&message.parachain);
    Ok(wire::BeefyConsensusProof { relay, parachain })
}

/// The forward state translation: total, with the activation block reset to
/// zero (the verifier does not learn it from the source state).
pub open spec fn spec_consensus_state_to_wire(s: source::ConsensusState) -> wire::BeefyConsensusState {
    wire::BeefyConsensusState {
        latest_height: U256::spec_of(s.latest_beefy_height as int),
        beefy_activation_block: U256::spec_of(0),
        current_authority_set: spec_authority_set(s.current_authorities),
        next_authority_set: spec_authority_set(s.next_authorities),
    }
}

/// Whether every numeric field of a verifier state narrows without loss.
pub open spec fn wire_state_fits(s: wire::BeefyConsensusState) -> bool {
    &&& s.latest_height.as_int() <= u32::MAX
    &&& s.current_authority_set.id.as_int() <= u64::MAX
    &&& s.current_authority_set.len.as_int() <= u32::MAX
    &&& s.next_authority_set.id.as_int() <= u64::MAX
    &&& s.next_authority_set.len.as_int() <= u32::MAX
}

/// The narrowing of a wire authority-set commitment, meaningful when its
/// fields fit.
pub open spec fn spec_authority_set_back(a: wire::AuthoritySetCommitment) -> source::BeefyNextAuthoritySet {
    source::BeefyNextAuthoritySet {
        id: a.id.as_int() as u64,
        len: a.len.as_int() as u32,
        root: a.root,
    }
}

/// Maps the source consensus state into the verifier's record.  Total; the
/// activation block is not tracked by the source state and is written as
/// zero, and the source's MMR root hash has no destination field.
pub fn consensus_state_to_wire(s: &source::ConsensusState) -> (r: wire::BeefyConsensusState)
    ensures
        r == spec_consensus_state_to_wire(*s),
{
    wire::BeefyConsensusState {
        latest_height: U256::from_u32(s.latest_beefy_height),
        beefy_activation_block: U256::zero(),
        current_authority_set: authority_set_commitment(&s.current_authorities),
        next_authority_set: authority_set_commitment(&s.next_authorities),
    }
}

/// Maps the verifier's record back into a source consensus state.  Lossy by
/// design: the MMR root hash is not tracked by the verifier and is
/// reconstructed as the zero hash, never compared.  Every narrowing fails
/// with `IntegerOverflow` instead of truncating.
pub fn consensus_state_from_wire(s: &wire::BeefyConsensusState) -> (r: Result<
    source::ConsensusState,
    Error,
>)
    ensures
        r is Ok <==> wire_state_fits(*s),
        r is Err ==> r->Err_0 == Error::IntegerOverflow,
        r is Ok ==> r->Ok_0.latest_beefy_height == s.latest_height.as_int(),
        r is Ok ==> h256_is_zero(r->Ok_0.mmr_root_hash),
        r is Ok ==> r->Ok_0.current_authorities == spec_authority_set_back(s.current_authority_set),
        r is Ok ==> r->Ok_0.next_authorities == spec_authority_set_back(s.next_authority_set),
{
    let latest_beefy_height = match s.latest_height.try_to_u32() {
        Ok(v) => v,
        Err(e) => {
            return Err(e);
        },
    };
    let current_id = match s.current_authority_set.id.try_to_u64() {
        Ok(v) => v,
        Err(e) => {
            return Err(e);
        },
    };
    let current_len = match s.current_authority_set.len.try_to_u32() {
        Ok(v) => v,
        Err(e) => {
            return Err(e);
        },
    };
    let next_id = match s.next_authority_set.id.try_to_u64() {
        Ok(v) => v,
        Err(e) => {
            return Err(e);
        },
    };
    let next_len = match s.next_authority_set.len.try_to_u32() {
        Ok(v) => v,
        Err(e) => {
            return Err(e);
        },
    };
    Ok(
        source::ConsensusState {
            mmr_root_hash: H256::zero(),
            latest_beefy_height,
            current_authorities: source::BeefyNextAuthoritySet {
                id: current_id,
                len: current_len,
                root: s.current_authority_set.root,
            },
            next_authorities: source::BeefyNextAuthoritySet {
                id: next_id,
                len: next_len,
                root: s.next_authority_set.root,
            },
        },
    )
}

/// Whether every numeric field of a wire checkpoint narrows without loss.
pub open spec fn wire_intermediate_fits(s: wire::IntermediateState) -> bool {
    &&& s.state_machine_id.as_int() <= u32::MAX
    &&& s.height.as_int() <= u32::MAX
    &&& s.commitment.timestamp.as_int() <= u64::MAX
}

/// Maps a wire checkpoint into the pipeline's own record: total and lossless
/// field for field, except that each narrowing fails with `IntegerOverflow`
/// instead of truncating.
pub fn intermediate_state_from_wire(s: &wire::IntermediateState) -> (r: Result<
    state::IntermediateState,
    Error,
>)
    ensures
        r is Ok <==> wire_intermediate_fits(*s),
        r is Err ==> r->Err_0 == Error::IntegerOverflow,
        r is Ok ==> r->Ok_0.height.state_machine_id == s.state_machine_id.as_int(),
        r is Ok ==> r->Ok_0.height.height == s.height.as_int(),
        r is Ok ==> r->Ok_0.commitment.timestamp == s.commitment.timestamp.as_int(),
        r is Ok ==> r->Ok_0.commitment.commitment == s.commitment.state_root,
{
    let state_machine_id = match s.state_machine_id.try_to_u32() {
        Ok(v) => v,
        Err(e) => {
            return Err(e);
        },
    };
    let height = match s.height.try_to_u32() {
        Ok(v) => v,
        Err(e) => {
            return Err(e);
        },
    };
    let timestamp = match s.commitment.timestamp.try_to_u64() {
        Ok(v) => v,
        Err(e) => {
            return Err(e);
        },
    };
    Ok(
        state::IntermediateState {
            height: state::StateMachineHeight { state_machine_id, height },
            commitment: state::StateCommitment { timestamp, commitment: s.commitment.state_root },
        },
    )
}

/// Translating a consensus state forward and then backward preserves the
/// latest height and both authority-set commitments exactly.  The MMR root
/// hash and the activation block do not survive the round trip: the backward
/// mapping resets the root to zero and the forward mapping writes a zero
/// activation block.
pub proof fn lemma_consensus_state_round_trip(s: source::ConsensusState)
    ensures
        wire_state_fits(spec_consensus_state_to_wire(s)),
        spec_consensus_state_to_wire(s).latest_height.as_int() == s.latest_beefy_height,
        spec_authority_set_back(spec_consensus_state_to_wire(s).current_authority_set)
            == s.current_authorities,
        spec_authority_set_back(spec_consensus_state_to_wire(s).next_authority_set)
            == s.next_authorities,
{
}

/// For a proof with exactly one in-range leaf index, the k-index computation
/// never fails: the relay translation succeeds if and only if the finality
/// commitment carries the MMR-root payload entry.
pub proof fn lemma_relay_success(m: source::MmrProofView)
    requires
        m.mmr_proof.leaf_indices.len() == 1,
        m.mmr_proof.leaf_indices[0] < 0x7fff_ffff_ffff_ffff,
    ensures
        spec_find_mmr_root_payload(m.signed_commitment.commitment.payload) is Some
            ==> relay_error(m) is None,
        spec_find_mmr_root_payload(m.signed_commitment.commitment.payload) is None
            ==> relay_error(m) == Some(Error::MissingPayload),
{
    crate::position::lemma_leaf_k_index_resolves(m.mmr_proof.leaf_indices[0] as nat);
}

/// The translation is a function of the message alone: equal messages yield
/// equal translated proofs, and equal failures.
pub proof fn lemma_translation_deterministic(a: source::ConsensusMessage, b: source::ConsensusMessage)
    requires
        a@ == b@,
    ensures
        relay_error(a@.mmr) == relay_error(b@.mmr),
        relay_error(a@.mmr) is None ==> spec_relay_proof(a@.mmr) == spec_relay_proof(b@.mmr),
        spec_parachain_proof(a@.parachain) == spec_parachain_proof(b@.parachain),
{
}

} // verus!
