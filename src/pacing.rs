use crate::error::Error;
use crate::number::{
    non_negative_finite_error,
    positive_finite_error,
    NonNegFinite,
    Number,
    PosFinite,
};
use vstd::prelude::*;

verus! {

/// The mean milliseconds per character: finite and above zero.
#[derive(Debug, Clone, Copy, PartialEq, Eq)]
pub struct Mean(PosFinite);

impl Mean {
    /// The mean in thousandths of a millisecond.
    pub closed spec fn view(self) -> i64 {
        self.0@
    }

    pub fn try_from(value: Number) -> (r: Result<Mean, Error>)
        ensures
            positive_finite_error(value) is Some <==> r is Err,
            r matches Err(e) ==> e == Error::InvalidParameter(
                positive_finite_error(value)->Some_0,
            ),
            r matches Ok(m) ==> value == Number::Finite(m@),
    {
        match PosFinite::build(value) {
            Ok(v) => Ok(Mean(v)),
            Err(e) => Err(Error::InvalidParameter(e)),
        }
    }

    /// The mean in thousandths of a millisecond.
    pub fn value(self) -> (r: i64)
        ensures
            r == self@,
            r > 0,
    {
        self.0.value()
    }
}

/// The standard deviation of the milliseconds per character: finite and not
/// below zero.
#[derive(Debug, Clone, Copy, PartialEq, Eq)]
pub struct Stddev(NonNegFinite);

impl Stddev {
    /// The standard deviation in thousandths of a millisecond.
    pub closed spec fn view(self) -> i64 {
        self.0@
    }

    pub fn try_from(value: Number) -> (r: Result<Stddev, Error>)
        ensures
            non_negative_finite_error(value) is Some <==> r is Err,
            r matches Err(e) ==> e == Error::InvalidParameter(
                non_negative_finite_error(value)->Some_0,
            ),
            r matches Ok(s) ==> value == Number::Finite(s@),
    {
        match NonNegFinite::build(value) {
            Ok(v) => Ok(Stddev(v)),
            Err(e) => Err(Error::InvalidParameter(e)),
        }
    }

    /// The standard deviation in thousandths of a millisecond.
    pub fn value(self) -> (r: i64)
        ensures
            r == self@,
            r >= 0,
    {
        self.0.value()
    }
}

/// `s²/m² + 1` as an exact fraction `(s² + m²) / m²`: the ratio whose
/// logarithm is the log-space variance `σ²` of a log-normal law with
/// arithmetic mean `m` and standard deviation `s`. Its `μ` is then
/// `ln m - σ²/2`.
pub fn variance_ratio(mean: Mean, stddev: Stddev) -> (r: (u128, u128))
    ensures
        r.0 == stddev@ * stddev@ + mean@ * mean@,
        r.1 == mean@ * mean@,
        r.1 > 0,
        r.0 >= r.1,
{
    let m = mean.value() as u128;
    let s = stddev.value() as u128;
    proof {
        assert(m * m <= (i64::MAX as int) * (i64::MAX as int)) by (nonlinear_arith)
            requires 0 < m <= i64::MAX;
        assert(s * s <= (i64::MAX as int) * (i64::MAX as int)) by (nonlinear_arith)
            requires 0 <= s <= i64::MAX;
        assert(m * m > 0) by (nonlinear_arith)
            requires m > 0;
        assert(s * s >= 0) by (nonlinear_arith);
    }
    (s * s + m * m, m * m)
}

/// With no spread the ratio is exactly one, so `σ² = ln 1 = 0` and every
/// sample equals the mean.
pub proof fn lemma_zero_spread_degenerates(mean: Mean, stddev: Stddev, r: (u128, u128))
    requires
        stddev@ == 0,
        r.0 == stddev@ * stddev@ + mean@ * mean@,
        r.1 == mean@ * mean@,
    ensures
        r.0 == r.1,
{
}

/// A mean that is zero, negative, NaN or infinite is refused before any
/// derivation, and so is a negative, NaN or infinite spread.
pub proof fn lemma_invalid_parameters_refused(mean: Number, spread: Number)
    ensures
        !mean.is_positive_finite() ==> positive_finite_error(mean) is Some,
        !spread.is_non_negative_finite() ==> non_negative_finite_error(spread) is Some,
        mean.is_positive_finite() ==> positive_finite_error(mean) is None,
        spread.is_non_negative_finite() ==> non_negative_finite_error(spread) is None,
{
}

} // verus!
