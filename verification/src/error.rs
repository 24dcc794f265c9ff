//! Structured failures of a translation call.  None of these is recovered
//! locally: the translator has no fallback behaviour, so every error is fatal
//! to the submission attempt that triggered the call.

use vstd::prelude::*;

verus! {

/// The ways a translation call can fail.
#[derive(Clone, Copy, Debug, PartialEq, Eq, Structural)]
pub enum Error {
    /// The MMR proof is structurally unusable: an empty leaf-index list, or a
    /// position/size mismatch in the k-index computation.
    MalformedProof,
    /// The finality commitment lacks the named MMR-root payload entry.
    MissingPayload,
    /// A narrowing numeric conversion would lose information.
    IntegerOverflow,
    /// An input shape the single-leaf design does not support, such as a
    /// multi-leaf batched relay proof.
    UnsupportedShape,
}

} // verus!
