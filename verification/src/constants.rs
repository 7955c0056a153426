//! Constants.

use vstd::prelude::*;

verus! {

/// The default margin: the bit pattern of the double `0.0001`.
pub const DEFAULT_MARGIN: u64 = 0x3F1A_36E2_EB1C_432D;

/// The default multiplier: the bit pattern of the double `0.000001`.
pub const DEFAULT_MULTIPLIER: u64 = 0x3EB0_C6F7_A0B5_ED8D;

} // verus!
