//! A fixed-width, zero-copy columnar container for fixed-point decimal
//! numbers: a dense array of 128-bit two's-complement integers scaled by a
//! shared (precision, scale) pair, with an optional validity bitmap.
pub mod array_data;
pub mod array_decimal;
pub mod bitmap;
pub mod buffer;
pub mod bytes128;
pub mod datatypes;
pub mod digits;
pub mod error;
