use vstd::prelude::*;

verus! {

/// Why a single number failed a sanity check.
#[derive(Debug, Clone, Copy, PartialEq, Eq, Structural)]
pub enum ValueError {
    IsNaN,
    IsZero,
    IsNegative,
    IsInfinite,
}

impl ValueError {
    /// The human-readable description of the failure.
    pub fn message(&self) -> (r: &'static str)
        ensures
            *self == ValueError::IsNaN ==> r@ == "value cannot be NaN"@,
            *self == ValueError::IsZero ==> r@ == "value cannot be zero"@,
            *self == ValueError::IsNegative ==> r@ == "value cannot be negative"@,
            *self == ValueError::IsInfinite ==> r@ == "value cannot be infinite"@,
    {
        match self {
            ValueError::IsNaN => "value cannot be NaN",
            ValueError::IsZero => "value cannot be zero",
            ValueError::IsNegative => "value cannot be negative",
            ValueError::IsInfinite => "value cannot be infinite",
        }
    }
}

/// The failures that building a pool, a pace or running an emission can report.
#[derive(Debug, Clone, Copy, PartialEq, Eq, Structural)]
pub enum Error {
    /// No item was left with a usable weight.
    NoValidItems,
    /// The weights add up to more than the pool can hold.
    WeightOverflow,
    /// A pacing parameter failed its sanity check.
    InvalidParameter(ValueError),
    /// A write to the output sink failed.
    IoFailure,
}

} // verus!
