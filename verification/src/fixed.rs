//! The scalar type every observation and output is expressed in: an exact
//! signed count of millionths of a unit.

use vstd::prelude::*;
use crate::arith::{rdiv, rdiv_i128, lemma_rdiv_bound, INPUT_LIMIT, RDIV_LIMIT, SCALE};

verus! {

/// A scalar held exactly as `micros` millionths of a unit; `Fixed` with
/// `micros == 1_500_000` is the value one and a half.
#[derive(Clone, Copy, PartialEq, Eq, Structural, Debug)]
pub struct Fixed {
    micros: i128,
}

impl Fixed {
    /// The value, in millionths of a unit.
    pub closed spec fn micros(self) -> int {
        self.micros as int
    }

    /// Small enough in magnitude for every indicator to accept as input.
    pub open spec fn in_range(self) -> bool {
        -INPUT_LIMIT <= self.micros() <= INPUT_LIMIT
    }

    /// The value whose millionth count is `micros`.
    pub fn from_micros(micros: i128) -> (r: Fixed)
        ensures
            r.micros() == micros,
    {
        Fixed { micros }
    }

    /// The whole-unit value `units`.
    pub fn from_int(units: i64) -> (r: Fixed)
        ensures
            r.micros() == units * SCALE,
    {
        Fixed { micros: (units as i128) * SCALE }
    }

    /// The millionth count, for callers that need the raw representation.
    pub fn to_micros(&self) -> (r: i128)
        ensures
            r == self.micros(),
    {
        self.micros
    }

    /// The nearest whole-unit value, ties away from zero.
    pub fn round(&self) -> (r: Fixed)
        requires
            -RDIV_LIMIT <= self.micros() <= RDIV_LIMIT,
        ensures
            r.micros() == rdiv(self.micros(), SCALE as int) * SCALE,
    {
        proof {
            lemma_rdiv_bound(
                self.micros(),
                SCALE as int,
                10_000_000_000_000_000_000_000_000_000_000,
            );
        }
        Fixed { micros: rdiv_i128(self.micros, SCALE) * SCALE }
    }
}

} // verus!
