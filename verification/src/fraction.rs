//! Normalized fractions in `[0, 1]`, held in fixed point.
//!
//! Touch input reports its position and pressure as fractions of the window
//! extent (resp. of full pressure). The adapter keeps such a fraction as a
//! count of micro-units: an integer in `0 ..= 1_000_000`, where `1_000_000`
//! stands for `1.0`. The host that reads the native events converts the
//! platform's normalized values into micro-units before handing them over.

use vstd::arithmetic::div_mod::lemma_div_is_ordered;
use vstd::prelude::*;

verus! {

/// The fixed-point representation of the fraction `1.0`.
pub const FRACTION_UNIT: u32 = 1000000;

/// A fraction in `[0, 1]`, stored as micro-units (`0 ..= FRACTION_UNIT`).
#[derive(Clone, Copy, Debug, PartialEq, Eq, Structural)]
pub struct UnitFraction {
    micros: u32,
}

/// The percentage (truncated) that a fraction of `v` micro-units stands for.
pub open spec fn percent_of(v: int) -> int {
    v * 100 / (FRACTION_UNIT as int)
}

/// The result of scaling an extent of `extent` pixels by a fraction of `v`
/// micro-units: the product truncated to whole pixels, saturated at
/// `i32::MAX` so that it always fits a coordinate.
pub open spec fn scale_spec(v: int, extent: int) -> int {
    let scaled = v * extent / (FRACTION_UNIT as int);
    if scaled > i32::MAX as int {
        i32::MAX as int
    } else {
        scaled
    }
}

impl UnitFraction {
    #[verifier::type_invariant]
    spec fn inv(self) -> bool {
        self.micros <= FRACTION_UNIT
    }

    /// The fraction as a count of micro-units.
    pub closed spec fn value(self) -> int {
        self.micros as int
    }

    /// Builds the fraction of `micros` micro-units; values above one whole
    /// unit are clamped to `1.0`.
    pub fn new(micros: u32) -> (r: Self)
        ensures
            r.value() == if micros <= FRACTION_UNIT {
                micros as int
            } else {
                FRACTION_UNIT as int
            },
    {
        if micros <= FRACTION_UNIT {
            UnitFraction { micros }
        } else {
            UnitFraction { micros: FRACTION_UNIT }
        }
    }

    /// The fraction as a count of micro-units.
    pub fn micros(&self) -> (r: u32)
        ensures
            r == self.value(),
    {
        self.micros
    }

    /// Rescales the fraction into an integer percentage, truncating.
    pub fn to_percent(&self) -> (r: u32)
        ensures
            r == percent_of(self.value()),
            r <= 100,
    {
        proof {
            use_type_invariant(*self);
            lemma_div_is_ordered(
                self.micros * 100,
                100 * FRACTION_UNIT as int,
                FRACTION_UNIT as int,
            );
        }
        self.micros * 100 / FRACTION_UNIT
    }

    /// Scales `extent` pixels by this fraction, truncating to whole pixels
    /// and saturating at `i32::MAX`.
    pub fn scale(&self, extent: u32) -> (r: i32)
        ensures
            r == scale_spec(self.value(), extent as int),
    {
        proof {
            use_type_invariant(*self);
            assert((self.micros as int) * (extent as int) <= 1000000int * (u32::MAX as int))
                by (nonlinear_arith)
                requires
                    self.micros <= 1000000,
                    extent <= u32::MAX,
            ;
        }
        let num: u64 = (self.micros as u64) * (extent as u64);
        let q: u64 = num / (FRACTION_UNIT as u64);
        if q > (i32::MAX as u64) {
            i32::MAX
        } else {
            q as i32
        }
    }
}

/// The percentage a fraction is rescaled to never decreases as the fraction
/// grows: pressure mapping is monotonic.
pub proof fn lemma_percent_monotonic(a: UnitFraction, b: UnitFraction)
    requires
        a.value() <= b.value(),
    ensures
        percent_of(a.value()) <= percent_of(b.value()),
{
    lemma_div_is_ordered(a.value() * 100, b.value() * 100, FRACTION_UNIT as int);
}

} // verus!
