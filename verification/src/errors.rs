//! The failures the library reports; all are returned, never panicked.

use vstd::prelude::*;

verus! {

/// Construction-time failures. A failed construction produces no usable
/// object; a successfully constructed indicator never fails on update.
#[derive(Clone, Copy, PartialEq, Eq, Structural, Debug)]
pub enum TaError {
    /// A zero (or otherwise unusable) period or duration at construction.
    InvalidParameter,
    /// The price-bar builder was finalized with some field never set.
    DataItemIncomplete,
    /// The price-bar fields violate the OHLC / volume invariant.
    DataItemInvalid,
}

} // verus!
