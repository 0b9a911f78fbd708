use crate::error::ValueError;
use vstd::prelude::*;

verus! {

/// A real number as read from configuration or the command line.
///
/// A finite value is held exactly as a count of thousandths, so `Finite(1500)`
/// is one and a half. The non-finite values are kept apart so that the checks
/// below can name them.
#[derive(Debug, Clone, Copy, PartialEq, Eq, Structural)]
pub enum Number {
    Finite(i64),
    PosInfinity,
    NegInfinity,
    NaN,
}

impl Number {
    pub open spec fn is_finite(self) -> bool {
        self is Finite
    }

    pub open spec fn is_nan(self) -> bool {
        self is NaN
    }

    pub open spec fn is_infinite(self) -> bool {
        self is PosInfinity || self is NegInfinity
    }

    pub open spec fn is_zero(self) -> bool {
        self == Number::Finite(0)
    }

    /// Below zero; NaN is neither below nor above it.
    pub open spec fn is_negative(self) -> bool {
        match self {
            Number::Finite(v) => v < 0,
            Number::NegInfinity => true,
            _ => false,
        }
    }

    /// Finite and strictly above zero.
    pub open spec fn is_positive_finite(self) -> bool {
        match self {
            Number::Finite(v) => v > 0,
            _ => false,
        }
    }

    /// Finite and not below zero.
    pub open spec fn is_non_negative_finite(self) -> bool {
        match self {
            Number::Finite(v) => v >= 0,
            _ => false,
        }
    }
}

/// Checks that pass a value through or name what is wrong with it.
pub trait SanityCheck: Sized {
    spec fn nan(&self) -> bool;

    spec fn zero(&self) -> bool;

    spec fn negative(&self) -> bool;

    spec fn infinite(&self) -> bool;

    fn ensure_non_nan(self) -> (r: Result<Self, ValueError>)
        ensures
            self.nan() ==> r == Err::<Self, ValueError>(ValueError::IsNaN),
            !self.nan() ==> r == Ok::<Self, ValueError>(self),
    ;

    fn ensure_non_zero(self) -> (r: Result<Self, ValueError>)
        ensures
            self.zero() ==> r == Err::<Self, ValueError>(ValueError::IsZero),
            !self.zero() ==> r == Ok::<Self, ValueError>(self),
    ;

    fn ensure_positive(self) -> (r: Result<Self, ValueError>)
        ensures
            self.negative() ==> r == Err::<Self, ValueError>(ValueError::IsNegative),
            !self.negative() ==> r == Ok::<Self, ValueError>(self),
    ;

    fn ensure_finite(self) -> (r: Result<Self, ValueError>)
        ensures
            self.infinite() ==> r == Err::<Self, ValueError>(ValueError::IsInfinite),
            !self.infinite() ==> r == Ok::<Self, ValueError>(self),
    ;
}

impl SanityCheck for Number {
    open spec fn nan(&self) -> bool {
        self.is_nan()
    }

    open spec fn zero(&self) -> bool {
        self.is_zero()
    }

    open spec fn negative(&self) -> bool {
        self.is_negative()
    }

    open spec fn infinite(&self) -> bool {
        self.is_infinite()
    }

    fn ensure_non_nan(self) -> (r: Result<Self, ValueError>) {
        match self {
            Number::NaN => Err(ValueError::IsNaN),
            _ => Ok(self),
        }
    }

    fn ensure_non_zero(self) -> (r: Result<Self, ValueError>) {
        match self {
            Number::Finite(v) => if v == 0 {
                Err(ValueError::IsZero)
            } else {
                Ok(self)
            },
            _ => Ok(self),
        }
    }

    fn ensure_positive(self) -> (r: Result<Self, ValueError>) {
        match self {
            Number::Finite(v) => if v < 0 {
                Err(ValueError::IsNegative)
            } else {
                Ok(self)
            },
            Number::NegInfinity => Err(ValueError::IsNegative),
            _ => Ok(self),
        }
    }

    fn ensure_finite(self) -> (r: Result<Self, ValueError>) {
        match self {
            Number::PosInfinity | Number::NegInfinity => Err(ValueError::IsInfinite),
            _ => Ok(self),
        }
    }
}

/// The first check that `n` fails on the way to a positive finite value, if any:
/// NaN, then infinity, then zero, then sign.
pub open spec fn positive_finite_error(n: Number) -> Option<ValueError> {
    if n.is_nan() {
        Some(ValueError::IsNaN)
    } else if n.is_infinite() {
        Some(ValueError::IsInfinite)
    } else if n.is_zero() {
        Some(ValueError::IsZero)
    } else if n.is_negative() {
        Some(ValueError::IsNegative)
    } else {
        None
    }
}

/// The first check that `n` fails on the way to a non-negative finite value, if any:
/// NaN, then infinity, then sign.
pub open spec fn non_negative_finite_error(n: Number) -> Option<ValueError> {
    if n.is_nan() {
        Some(ValueError::IsNaN)
    } else if n.is_infinite() {
        Some(ValueError::IsInfinite)
    } else if n.is_negative() {
        Some(ValueError::IsNegative)
    } else {
        None
    }
}

/// A finite value that is not below zero, in thousandths.
#[derive(Debug, Clone, Copy, PartialEq, Eq)]
pub struct NonNegFinite(i64);

impl NonNegFinite {
    #[verifier::type_invariant]
    spec fn inv(self) -> bool {
        self.0 >= 0
    }

    pub closed spec fn view(self) -> i64 {
        self.0
    }

    pub fn build(value: Number) -> (r: Result<NonNegFinite, ValueError>)
        ensures
            non_negative_finite_error(value) is Some <==> r is Err,
            r matches Err(e) ==> non_negative_finite_error(value) == Some(e),
            r matches Ok(x) ==> value == Number::Finite(x@),
    {
        let checked = match value.ensure_non_nan() {
            Ok(v) => v,
            Err(e) => return Err(e),
        };
        let checked = match checked.ensure_finite() {
            Ok(v) => v,
            Err(e) => return Err(e),
        };
        let checked = match checked.ensure_positive() {
            Ok(v) => v,
            Err(e) => return Err(e),
        };
        match checked {
            Number::Finite(v) => Ok(NonNegFinite(v)),
            _ => Err(ValueError::IsInfinite),
        }
    }

    /// The value in thousandths.
    pub fn value(self) -> (r: i64)
        ensures
            r == self@,
            r >= 0,
    {
        proof {
            use_type_invariant(&self);
        }
        self.0
    }
}

/// A finite value strictly above zero, in thousandths.
#[derive(Debug, Clone, Copy, PartialEq, Eq)]
pub struct PosFinite(i64);

impl PosFinite {
    #[verifier::type_invariant]
    spec fn inv(self) -> bool {
        self.0 > 0
    }

    pub closed spec fn view(self) -> i64 {
        self.0
    }

    pub fn build(value: Number) -> (r: Result<PosFinite, ValueError>)
        ensures
            positive_finite_error(value) is Some <==> r is Err,
            r matches Err(e) ==> positive_finite_error(value) == Some(e),
            r matches Ok(x) ==> value == Number::Finite(x@),
    {
        let checked = match value.ensure_non_nan() {
            Ok(v) => v,
            Err(e) => return Err(e),
        };
        let checked = match checked.ensure_finite() {
            Ok(v) => v,
            Err(e) => return Err(e),
        };
        let checked = match checked.ensure_non_zero() {
            Ok(v) => v,
            Err(e) => return Err(e),
        };
        let checked = match checked.ensure_positive() {
            Ok(v) => v,
            Err(e) => return Err(e),
        };
        match checked {
            Number::Finite(v) => Ok(PosFinite(v)),
            _ => Err(ValueError::IsInfinite),
        }
    }

    /// The value in thousandths.
    pub fn value(self) -> (r: i64)
        ensures
            r == self@,
            r > 0,
    {
        proof {
            use_type_invariant(&self);
        }
        self.0
    }
}

} // verus!
