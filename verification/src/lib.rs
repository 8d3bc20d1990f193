//! Complex numbers whose components are IEEE 754 double-precision values,
//! held by their 64-bit encodings so that every operation here is exact.

pub mod binary64;
pub mod complex;
