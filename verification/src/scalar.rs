//! What the value types ask of the scalar they wrap.

use vstd::prelude::*;

verus! {

/// A scalar that can be read from the text of a field.
pub trait Scalar: View + Sized {
    /// What `text` denotes, or `None` where it is no valid text of this type.
    spec fn parsed(text: Seq<char>) -> Option<Self::V>;

    /// Reads a value from the whole of `text`.
    fn parse(text: &str) -> (r: Option<Self>)
        ensures
            r is Some <==> Self::parsed(text@) is Some,
            r matches Some(v) ==> Self::parsed(text@) == Some(v@),
    ;
}

/// A scalar magnitude that can be brought to physical units by a divisor.
pub trait Quantity: Scalar {
    /// `value` divided by `divisor`, or `None` where this type has no such quotient.
    spec fn quotient(value: Self::V, divisor: Self::V) -> Option<Self::V>;

    /// Whether `self` can be divided by `divisor`.
    fn can_divide(&self, divisor: &Self) -> (r: bool)
        ensures
            r == (Self::quotient(self@, divisor@) is Some),
    ;

    /// Divides `self` by `divisor`.
    fn divide(self, divisor: &Self) -> (r: Self)
        requires
            Self::quotient(self@, divisor@) is Some,
        ensures
            Self::quotient(self@, divisor@) == Some(r@),
    ;
}

} // verus!

verus! {

impl Scalar for String {
    /// Every text is a valid string, and denotes itself.
    open spec fn parsed(text: Seq<char>) -> Option<Seq<char>> {
        Some(text)
    }

    fn parse(text: &str) -> (r: Option<String>) {
        Some(text.to_owned())
    }
}

} // verus!
