//! The load-progress indicator.
//!
//! The engine reports progress as a binary64 fraction between zero and
//! one. The indicator is hidden once the fraction has reached one. That
//! test is made on the fraction's bit pattern: among the patterns with a
//! clear sign bit that are no NaN, a larger pattern is a larger number, so
//! "at least one" is a comparison of unsigned integers.

use vstd::prelude::*;

verus! {

/// The bit pattern of the binary64 number one.
pub const ONE_BITS: u64 = 0x3FF0_0000_0000_0000;

/// The bit pattern of binary64 positive infinity, the largest pattern that
/// has a clear sign bit and is no NaN.
pub const INFINITY_BITS: u64 = 0x7FF0_0000_0000_0000;

/// Whether the binary64 number with the bit pattern `bits` is at least
/// one. A negative number (sign bit set) is not, and a NaN is not.
pub open spec fn load_complete(bits: u64) -> bool {
    ONE_BITS <= bits <= INFINITY_BITS
}

/// What to show on the progress indicator.
#[derive(Clone, Copy, PartialEq, Eq, Structural, Debug)]
pub struct ProgressUpdate {
    /// The bit pattern of the fraction to show, as it was reported.
    pub fraction_bits: u64,
    /// Whether the indicator is visible.
    pub visible: bool,
}

/// The indicator for a reported fraction: it shows that fraction, and is
/// visible until the load is complete.
pub open spec fn progress_update_for(fraction_bits: u64) -> ProgressUpdate {
    ProgressUpdate { fraction_bits, visible: !load_complete(fraction_bits) }
}

/// Tells whether a reported fraction has reached one.
pub fn is_load_complete(fraction_bits: u64) -> (complete: bool)
    ensures
        complete == load_complete(fraction_bits),
{
    ONE_BITS <= fraction_bits && fraction_bits <= INFINITY_BITS
}

/// Computes the indicator for a reported fraction.
pub fn progress_update(fraction_bits: u64) -> (update: ProgressUpdate)
    ensures
        update == progress_update_for(fraction_bits),
{
    ProgressUpdate { fraction_bits, visible: !is_load_complete(fraction_bits) }
}

} // verus!
