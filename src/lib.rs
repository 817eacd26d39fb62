//! Sign classification and interaction rules for point charges.
//!
//! A charge's signed value arrives as the bit pattern of an IEEE-754
//! binary64 number, so that the library reasons about it exactly.
pub mod charge;
pub mod float_bits;
