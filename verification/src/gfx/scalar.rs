//! Single-precision scalars as the device reads them.
//!
//! Positions and texture coordinates reach the device as IEEE-754 binary32
//! values. The library only stores and forwards them, so it keeps each one
//! as the 32-bit pattern that encodes it.

use vstd::prelude::*;

verus! {

/// The bit pattern of the scalar zero.
pub const ZERO_BITS: u32 = 0x0000_0000;

/// The bit pattern of the scalar one.
pub const ONE_BITS: u32 = 0x3F80_0000;

} // verus!
