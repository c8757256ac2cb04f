//! Primitives used in USB MIDI data.

use vstd::prelude::*;

pub mod u14;
pub mod u4;
pub mod u7;

verus! {

/// Like `From`, but discards the bits that do not fit into the target type.
///
/// This is useful for going from higher ranges to lower ranges.
pub trait FromOverFlow<T>: Sized {
    /// The value that `from_overflow` returns.
    spec fn from_overflow_spec(value: T) -> Self;

    /// Converts with overflowing.
    fn from_overflow(value: T) -> (r: Self)
        ensures
            r == Self::from_overflow_spec(value),
    ;
}

/// Like `From`, but caps a value that is too large at the target's maximum.
pub trait FromClamped<T>: Sized {
    /// The value that `from_clamped` returns.
    spec fn from_clamped_spec(value: T) -> Self;

    /// Converts with clamping.
    fn from_clamped(value: T) -> (r: Self)
        ensures
            r == Self::from_clamped_spec(value),
    ;
}

} // verus!
