//! Plain-value carriers for the verifier's wide numeric type and for 32-byte
//! hash values.  Widening conversions are total; narrowing conversions fail
//! with `IntegerOverflow` instead of truncating.

use vstd::prelude::*;

use crate::error::Error;

verus! {

/// A 256-bit unsigned integer, as two 128-bit halves.
#[derive(Clone, Copy, Debug, PartialEq, Eq, Structural)]
pub struct U256 {
    /// Least significant 128 bits.
    pub lo: u128,
    /// Most significant 128 bits.
    pub hi: u128,
}

impl U256 {
    /// The numeric value: `lo + hi * 2^128`.
    pub open spec fn as_int(self) -> int {
        self.lo as int + self.hi as int * 0x1_0000_0000_0000_0000_0000_0000_0000_0000
    }

    /// The 256-bit value of a small integer.
    pub open spec fn spec_of(x: int) -> U256 {
        U256 { lo: x as u128, hi: 0 }
    }

    pub fn zero() -> (r: U256)
        ensures
            r == U256::spec_of(0),
            r.as_int() == 0,
    {
        U256 { lo: 0, hi: 0 }
    }

    pub fn from_u32(x: u32) -> (r: U256)
        ensures
            r == U256::spec_of(x as int),
            r.as_int() == x,
    {
        U256 { lo: x as u128, hi: 0 }
    }

    pub fn from_u64(x: u64) -> (r: U256)
        ensures
            r == U256::spec_of(x as int),
            r.as_int() == x,
    {
        U256 { lo: x as u128, hi: 0 }
    }

    /// Narrowing to 32 bits; exact, or `IntegerOverflow` when the value does
    /// not fit.
    pub fn try_to_u32(&self) -> (r: Result<u32, Error>)
        ensures
            r is Ok <==> self.as_int() <= u32::MAX,
            r is Ok ==> r->Ok_0 == self.as_int(),
            r is Err ==> r->Err_0 == Error::IntegerOverflow,
    {
        if self.hi == 0 && self.lo <= u32::MAX as u128 {
            Ok(self.lo as u32)
        } else {
            Err(Error::IntegerOverflow)
        }
    }

    /// Narrowing to 64 bits; exact, or `IntegerOverflow` when the value does
    /// not fit.
    pub fn try_to_u64(&self) -> (r: Result<u64, Error>)
        ensures
            r is Ok <==> self.as_int() <= u64::MAX,
            r is Ok ==> r->Ok_0 == self.as_int(),
            r is Err ==> r->Err_0 == Error::IntegerOverflow,
    {
        if self.hi == 0 && self.lo <= u64::MAX as u128 {
            Ok(self.lo as u64)
        } else {
            Err(Error::IntegerOverflow)
        }
    }
}

/// A 256-bit hash value, carried through the translation as opaque bytes.
#[derive(Clone, Copy, Debug, PartialEq, Eq)]
pub struct H256 {
    pub bytes: [u8; 32],
}

/// All 32 bytes are zero.
pub open spec fn h256_is_zero(h: H256) -> bool {
    forall|i: int| 0 <= i < 32 ==> h.bytes@[i] == 0u8
}

impl H256 {
    /// The all-zero hash, used where a reverse state translation cannot
    /// reconstruct a value the verifier does not track.
    pub fn zero() -> (r: H256)
        ensures
            h256_is_zero(r),
    {
        let bytes: [u8; 32] = [0u8; 32];
        proof {
            broadcast use vstd::array::axiom_spec_array_fill_for_copy_type;

        }
        H256 { bytes }
    }
}

} // verus!
