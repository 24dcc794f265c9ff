//! Translator from a BEEFY-style Merkle Mountain Range finality proof to the
//! binary message format consumed by an on-chain light-client verifier.
//!
//! The crate is a pure, deterministic structural/numeric transform: it owns no
//! state, performs no I/O, and validates no signatures.  Its components are
//! the MMR position arithmetic (`position`), the proof-layer encoder and the
//! proof assemblers (`translate`), and the narrower state translations used by
//! the verifier's state-update path.

pub mod bits;
pub mod error;
pub mod numeric;
pub mod position;
pub mod source;
pub mod state;
pub mod translate;
pub mod wire;
