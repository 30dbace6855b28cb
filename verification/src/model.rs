//! The record and the two value types, under one roof.

pub use crate::record::Record;
pub use crate::record_value::RecordValue;
pub use crate::value::Value;
