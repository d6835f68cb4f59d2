//! Floating-point quantities, carried by their IEEE-754 bit patterns.
//!
//! The library does no floating-point arithmetic; scores and measurements that the
//! system reports as floats travel through it unchanged, as bit patterns.
use vstd::prelude::*;

verus! {

/// A binary64 (`f64`) value, carried by its IEEE-754 bit pattern.
#[derive(Clone, Copy, Debug, PartialEq, Eq, Structural)]
pub struct Real64(pub u64);

/// Bit pattern of the binary64 value `1.0`.
pub const ONE_BITS: u64 = 0x3FF0_0000_0000_0000;

/// Bit pattern of the binary64 value `-0.0`.
pub const NEGATIVE_ZERO_BITS: u64 = 0x8000_0000_0000_0000;

/// Bit pattern of the binary64 value `+∞`, the largest non-negative non-NaN pattern.
pub const POSITIVE_INFINITY_BITS: u64 = 0x7FF0_0000_0000_0000;

/// For `threshold` the bit pattern of a non-negative binary64 value, the value with bit
/// pattern `bits` is greater than it (what `x > t` decides).
///
/// The non-negative values `+0.0 ..= +∞` are the patterns `0 ..= POSITIVE_INFINITY_BITS`,
/// ordered as unsigned integers; a negative value or a NaN is greater than no such
/// threshold.
pub open spec fn exceeds(bits: u64, threshold: u64) -> bool {
    threshold < bits <= POSITIVE_INFINITY_BITS
}

/// The binary64 value with bit pattern `bits` lies in `[0.0, 1.0]`.
///
/// In IEEE-754 binary64, the non-negative values are the patterns with the sign bit
/// clear, ordered as unsigned integers, so `+0.0 ..= 1.0` are the patterns `0 ..= ONE_BITS`;
/// `-0.0` compares equal to `0.0` and is in the interval too; every NaN is outside it.
pub open spec fn in_unit_interval(bits: u64) -> bool {
    bits <= ONE_BITS || bits == NEGATIVE_ZERO_BITS
}

impl Real64 {
    /// Whether the value lies in `[0.0, 1.0]` (what `(0.0..=1.0).contains(&x)` decides).
    pub fn is_unit_interval(&self) -> (b: bool)
        ensures
            b == in_unit_interval(self.0),
    {
        self.0 <= ONE_BITS || self.0 == NEGATIVE_ZERO_BITS
    }

    /// Whether the value is greater than the non-negative value with bit pattern
    /// `threshold`.
    pub fn exceeds(&self, threshold: u64) -> (b: bool)
        ensures
            b == exceeds(self.0, threshold),
    {
        threshold < self.0 && self.0 <= POSITIVE_INFINITY_BITS
    }
}

} // verus!
