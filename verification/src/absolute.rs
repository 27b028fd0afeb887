//! The absolute-value view over a signed number.

use vstd::prelude::*;

use crate::{abs_int, Signed};

verus! {

/// A transient view of a signed number's absolute value.
///
/// The view holds the only live reference to the number, so while it exists
/// the number can change only through the view.  Adding to the view grows
/// the number's magnitude and subtracting shrinks it; the number's sign is
/// re-read at each operation, so a sequence of operations that crosses zero
/// switches direction on the next call.
#[derive(Debug)]
pub struct Absolute<'a, I: Signed> {
    /// The number under view.
    pub num: &'a mut I,
}

impl<'a, I: Signed> Absolute<'a, I> {
    /// The current magnitude of the number under view, as the unsigned
    /// counterpart type.
    pub fn get_value(&self) -> (r: I::Unsigned)
        ensures
            I::uval(r) == abs_int((*old(self.num)).sval()),
    {
        proof {
            I::lemma_zero();
        }
        (*self.num).abs_diff(I::ZERO)
    }

    /// Grow the magnitude by `rhs`: subtract `rhs` from a negative number,
    /// add it to any other.  The caller rules out overflow on the branch
    /// that is taken.  `rhs` may be negative, in which case the effect is
    /// inverted; the branch itself depends only on the number's sign.
    pub fn add_assign(&mut self, rhs: &I)
        requires
            (*old(self).num).sval() < 0 ==> I::min_val() <= (*old(self).num).sval() - rhs.sval()
                <= I::max_val(),
            (*old(self).num).sval() >= 0 ==> I::min_val() <= (*old(self).num).sval() + rhs.sval()
                <= I::max_val(),
        ensures
            (*old(self).num).sval() < 0 ==> (*final(self).num).sval() == (*old(self).num).sval()
                - rhs.sval(),
            (*old(self).num).sval() >= 0 ==> (*final(self).num).sval() == (*old(self).num).sval()
                + rhs.sval(),
            *final(final(self).num) == *final(old(self).num),
    {
        if (*self.num).is_negative() {
            self.num.sub_in_place(*rhs);
        } else {
            self.num.add_in_place(*rhs);
        }
    }

    /// Shrink the magnitude by `rhs`: add `rhs` to a negative number,
    /// subtract it from any other.  The value may cross zero; the sign is
    /// checked once per call, not re-checked within one.  The caller rules
    /// out overflow on the branch that is taken.
    pub fn sub_assign(&mut self, rhs: &I)
        requires
            (*old(self).num).sval() < 0 ==> I::min_val() <= (*old(self).num).sval() + rhs.sval()
                <= I::max_val(),
            (*old(self).num).sval() >= 0 ==> I::min_val() <= (*old(self).num).sval() - rhs.sval()
                <= I::max_val(),
        ensures
            (*old(self).num).sval() < 0 ==> (*final(self).num).sval() == (*old(self).num).sval()
                + rhs.sval(),
            (*old(self).num).sval() >= 0 ==> (*final(self).num).sval() == (*old(self).num).sval()
                - rhs.sval(),
            *final(final(self).num) == *final(old(self).num),
    {
        if (*self.num).is_negative() {
            self.num.add_in_place(*rhs);
        } else {
            self.num.sub_in_place(*rhs);
        }
    }
}

} // verus!
