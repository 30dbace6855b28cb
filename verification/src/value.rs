//! A scalar that may be absent, told by the field's sentinel.

use vstd::prelude::*;
use crate::error::ParseError;
use crate::scalar::Scalar;
use crate::text::same_text;

verus! {

/// A value of type `T` that a field reports, or nothing where the field held its
/// sentinel.
#[derive(Clone, Debug, PartialEq)]
pub struct Value<T>(pub Option<T>);

impl<T: View> View for Value<T> {
    type V = Option<T::V>;

    open spec fn view(&self) -> Option<T::V> {
        match self.0 {
            Some(v) => Some(v@),
            None => None,
        }
    }
}

/// What the text `s` of a field with the sentinel `sentinel` decodes to.
///
/// The sentinel is compared as text, before and apart from any attempt to read a
/// `T`: it decodes to an absent value whatever `T` is.
pub open spec fn nullable<T: Scalar>(s: Seq<char>, sentinel: Seq<char>) -> Result<
    Option<T::V>,
    ParseError,
> {
    if s == sentinel {
        Ok(None)
    } else {
        match T::parsed(s) {
            Some(v) => Ok(Some(v)),
            None => Err(ParseError::Syntax),
        }
    }
}

impl<T: Scalar> Value<T> {
    /// Decodes the text `s` of a field whose sentinel is `sentinel`.
    pub fn from_str(s: &str, sentinel: &str) -> (r: Result<Value<T>, ParseError>)
        ensures
            match r {
                Ok(v) => nullable::<T>(s@, sentinel@) == Ok::<Option<T::V>, ParseError>(v@),
                Err(e) => nullable::<T>(s@, sentinel@) == Err::<Option<T::V>, ParseError>(e),
            },
    {
        if same_text(s, sentinel) {
            Ok(Value(None))
        } else {
            match T::parse(s) {
                Some(v) => Ok(Value(Some(v))),
                None => Err(ParseError::Syntax),
            }
        }
    }

    /// Whether the field held its sentinel.
    pub fn is_absent(&self) -> (r: bool)
        ensures
            r == (self@ is None),
    {
        self.0.is_none()
    }
}

} // verus!
