//! Core value representation for a dynamically-typed language runtime.
//!
//! Every runtime value fits in a single 8-byte word by NaN-boxing: a valid
//! IEEE-754 double is stored as its own bit pattern, while every non-float
//! value is packed into the significand of a quiet NaN. This crate works on
//! the raw 64-bit patterns, so the packing, tagging and canonicalization
//! rules are stated and proved at the bit level.

pub mod boxed;
pub mod heap;
pub mod json;
pub mod jsstr;
pub mod property;
pub mod raw;
pub mod singlenan;
pub mod try_from_js;
pub mod value;
