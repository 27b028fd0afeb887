//! Mutating signed integers through their absolute value.
//!
//! A `Signed` number can hand out a transient [`Absolute`] view that borrows
//! it exclusively.  Adding to the view grows the number's magnitude, and
//! subtracting from the view shrinks it, whatever the number's current sign:
//! the sign bookkeeping happens inside the view, once per operation.

use vstd::prelude::*;

mod absolute;
mod widths;

pub use absolute::Absolute;

verus! {

/// Mathematical absolute value of an integer.
pub open spec fn abs_int(x: int) -> int {
    if x < 0 {
        -x
    } else {
        x
    }
}

/// Mathematical sign of an integer: -1, 0 or 1.
pub open spec fn signum_int(x: int) -> int {
    if x < 0 {
        -1
    } else if x == 0 {
        0
    } else {
        1
    }
}

/// A fixed-width two's-complement signed integer type, together with its
/// equal-width unsigned counterpart, sign queries, and in-place arithmetic.
///
/// The spec functions `sval`, `uval`, `min_val` and `max_val` give each
/// implementing width a mathematical model: `sval` maps a value to the
/// integer it represents, `uval` does the same for the unsigned counterpart,
/// and `min_val`/`max_val` bound the representable range.
pub trait Signed: Sized + Copy {
    /// The unsigned type of the same bit width, used for magnitudes.
    type Unsigned;

    /// The zero of this type.
    const ZERO: Self;

    /// The mathematical value of a number of this type.
    spec fn sval(self) -> int;

    /// The mathematical value of a number of the unsigned counterpart type.
    spec fn uval(u: Self::Unsigned) -> int;

    /// The smallest representable value of this type.
    spec fn min_val() -> int;

    /// The largest representable value of this type.
    spec fn max_val() -> int;

    /// Every value lies in the representable range, which in two's
    /// complement is `[-(max + 1), max]` with a positive `max`.
    proof fn lemma_range(self)
        ensures
            Self::min_val() <= self.sval() <= Self::max_val(),
            Self::min_val() < 0 < Self::max_val(),
            Self::min_val() + Self::max_val() == -1,
    ;

    /// The zero constant means mathematical zero.
    proof fn lemma_zero()
        ensures
            Self::ZERO.sval() == 0,
    ;

    /// Two unsigned counterparts with the same mathematical value are the
    /// same value: `uval` hides nothing.
    proof fn lemma_uval_injective(u1: Self::Unsigned, u2: Self::Unsigned)
        requires
            Self::uval(u1) == Self::uval(u2),
        ensures
            u1 == u2,
    ;

    /// Borrow this number exclusively as a view of its absolute value.
    ///
    /// The view's operations mutate the number in place; once the view is
    /// released, the number holds the transformed value.
    fn get_absolute(&mut self) -> (r: Absolute<'_, Self>)
        ensures
            *r.num == *old(self),
            *final(self) == *final(r.num),
    ;

    /// The unsigned distance between two values.  The unsigned type is wide
    /// enough for the worst case, so this never fails.
    fn abs_diff(self, other: Self) -> (r: Self::Unsigned)
        ensures
            Self::uval(r) == abs_int(self.sval() - other.sval()),
    ;

    /// The absolute value, within the same signed type.  The minimum value
    /// is excluded: its magnitude is not representable in the signed type.
    fn abs(self) -> (r: Self)
        requires
            self.sval() != Self::min_val(),
        ensures
            r.sval() == abs_int(self.sval()),
    ;

    /// Whether this value is strictly greater than zero.
    fn is_positive(self) -> (r: bool)
        ensures
            r == (self.sval() > 0),
    ;

    /// Whether this value is strictly less than zero.
    fn is_negative(self) -> (r: bool)
        ensures
            r == (self.sval() < 0),
    ;

    /// The sign of this value: -1, 0 or 1, in this type.
    fn signum(self) -> (r: Self)
        ensures
            r.sval() == signum_int(self.sval()),
    ;

    /// Native in-place addition.  The caller rules out overflow.
    fn add_in_place(&mut self, rhs: Self)
        requires
            Self::min_val() <= old(self).sval() + rhs.sval() <= Self::max_val(),
        ensures
            final(self).sval() == old(self).sval() + rhs.sval(),
    ;

    /// Native in-place subtraction.  The caller rules out overflow.
    fn sub_in_place(&mut self, rhs: Self)
        requires
            Self::min_val() <= old(self).sval() - rhs.sval() <= Self::max_val(),
        ensures
            final(self).sval() == old(self).sval() - rhs.sval(),
    ;
}

/// `abs_diff` is symmetric: for any `a` and `b` of one width, the distances
/// `a.abs_diff(b)` and `b.abs_diff(a)` are the same value.  The parameters
/// `d1` and `d2` stand for the two results, constrained exactly as the
/// `ensures` of [`Signed::abs_diff`] constrains them.
pub proof fn lemma_abs_diff_symmetric<I: Signed>(a: I, b: I, d1: I::Unsigned, d2: I::Unsigned)
    requires
        I::uval(d1) == abs_int(a.sval() - b.sval()),
        I::uval(d2) == abs_int(b.sval() - a.sval()),
    ensures
        d1 == d2,
{
    I::lemma_uval_injective(d1, d2);
}

} // verus!
