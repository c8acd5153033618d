//! A 12-bit unsigned integer, for device registers and packed encodings
//! whose fields are exactly twelve bits wide.

pub mod bits;
pub mod convert;
pub mod laws;
pub mod ops;
pub mod order;
pub mod u12;
