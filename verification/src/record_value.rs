//! A scaled magnitude with its unit, absent where the field held only filler.

use vstd::prelude::*;
use crate::error::ParseError;
use crate::scalar::Quantity;
use crate::text::{all_filler, is_all_filler};

verus! {

/// A quantity in physical units, with the label of the unit.
#[derive(Clone, Debug, PartialEq)]
pub struct RecordValue<T> {
    value: T,
    unit: String,
}

/// What a [`RecordValue`] holds: the quantity and the unit's label.
pub ghost struct Measured<V> {
    pub value: V,
    pub unit: Seq<char>,
}

impl<T: View> View for RecordValue<T> {
    type V = Measured<T::V>;

    closed spec fn view(&self) -> Measured<T::V> {
        Measured { value: self.value@, unit: self.unit@ }
    }
}

/// What the text `s` of a scaled field decodes to, for the unit `unit` and the
/// divisor `divisor`.
///
/// Text with no numeric character but the filler digit is a missing value, whatever
/// else it holds. Any other text is read as a `T` and divided by the divisor, once.
pub open spec fn scaled<T: Quantity>(s: Seq<char>, unit: Seq<char>, divisor: T::V) -> Result<
    Option<Measured<T::V>>,
    ParseError,
> {
    if all_filler(s) {
        Ok(None)
    } else {
        match T::parsed(s) {
            None => Err(ParseError::Syntax),
            Some(magnitude) => match T::quotient(magnitude, divisor) {
                None => Err(ParseError::Division),
                Some(value) => Ok(Some(Measured { value, unit })),
            },
        }
    }
}

/// The views of what a decoder returned.
pub open spec fn measured_view<T: View>(r: Result<Option<RecordValue<T>>, ParseError>) -> Result<
    Option<Measured<T::V>>,
    ParseError,
> {
    match r {
        Ok(Some(v)) => Ok(Some(v@)),
        Ok(None) => Ok(None),
        Err(e) => Err(e),
    }
}

impl<T: Quantity> RecordValue<T> {
    /// Decodes the text `s` of a scaled field that is known to be missing or well
    /// formed: the quantity `s / divide` in `unit`, or `None` where `s` is missing.
    pub fn new(s: &str, unit: &str, divide: T) -> (r: Option<RecordValue<T>>)
        requires
            scaled::<T>(s@, unit@, divide@) is Ok,
        ensures
            measured_view(Ok(r)) == scaled::<T>(s@, unit@, divide@),
    {
        if is_all_filler(s) {
            return None;
        }
        match T::parse(s) {
            Some(magnitude) => Some(
                RecordValue { value: magnitude.divide(&divide), unit: unit.to_owned() },
            ),
            None => {
                proof {
                    assert(false);
                }
                None
            },
        }
    }

    /// Decodes the text `s` of a scaled field: the quantity `s / divide` in `unit`,
    /// `None` where `s` is missing, or the reason why `s` cannot be read.
    pub fn parse(s: &str, unit: &str, divide: T) -> (r: Result<Option<RecordValue<T>>, ParseError>)
        ensures
            measured_view(r) == scaled::<T>(s@, unit@, divide@),
    {
        if is_all_filler(s) {
            return Ok(Self::new(s, unit, divide));
        }
        match T::parse(s) {
            None => Err(ParseError::Syntax),
            Some(magnitude) => {
                if magnitude.can_divide(&divide) {
                    Ok(Self::new(s, unit, divide))
                } else {
                    Err(ParseError::Division)
                }
            },
        }
    }

    /// The quantity, in physical units.
    pub fn value(&self) -> (r: &T)
        ensures
            r@ == self@.value,
    {
        &self.value
    }

    /// The label of the unit.
    pub fn unit(&self) -> (r: &str)
        ensures
            r@ == self@.unit,
    {
        self.unit.as_str()
    }
}

} // verus!
