//! The ways in which text can fail to decode.

use vstd::prelude::*;
use crate::names::Id;

verus! {

/// Why a field that was reported could not be read.
#[derive(Clone, Copy, Debug, PartialEq, Eq, Structural)]
pub enum ParseError {
    /// The text is not the sentinel and is no valid text of the scalar's type.
    Syntax,
    /// The magnitude cannot be divided by the field's divisor.
    Division,
}

/// Why the segment of a field group could not be decoded.
#[derive(Clone, Copy, Debug, PartialEq, Eq, Structural)]
pub enum GroupFault {
    /// The segment has `found` columns where the group's layout has `expected`.
    Columns { expected: usize, found: usize },
    /// The column at index `column` could not be read; no column before it failed.
    Column { column: usize, cause: ParseError },
}

/// What went wrong with one entry of a record.
#[derive(Clone, Copy, Debug, PartialEq, Eq, Structural)]
pub enum Fault {
    /// The input holds no segment for an attribute that every record holds.
    Missing,
    /// The text of a scalar attribute could not be read.
    Scalar(ParseError),
    /// The text of the observation time is no valid timestamp.
    Timestamp,
    /// The segment of a field group could not be decoded.
    Group(GroupFault),
}

/// Why a record could not be decoded: the entry that failed, its raw text, and
/// what went wrong with it.
#[derive(Clone, Debug, PartialEq, Eq)]
pub struct DecodeError {
    /// The entry that failed.
    pub field: Id,
    /// The raw text of the entry; empty where the entry is missing.
    pub raw: String,
    /// What went wrong.
    pub fault: Fault,
}

/// What a [`DecodeError`] holds.
pub ghost struct Failure {
    pub field: Id,
    pub raw: Seq<char>,
    pub fault: Fault,
}

impl View for DecodeError {
    type V = Failure;

    open spec fn view(&self) -> Failure {
        Failure { field: self.field, raw: self.raw@, fault: self.fault }
    }
}

} // verus!
