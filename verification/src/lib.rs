//! Decoding of NOAA Integrated Surface Database observation records into typed,
//! unit-tagged values, and encoding of decoded records into a sparse mapping.

pub mod category;
pub mod columns;
pub mod digits;
pub mod distinct;
pub mod encoded;
pub mod error;
pub mod group;
pub mod integer;
pub mod laws;
pub mod layout;
pub mod mandatory;
pub mod model;
pub mod names;
pub mod rational;
pub mod record;
pub mod record_value;
pub mod scalar;
pub mod text;
pub mod timestamp;
pub mod value;
