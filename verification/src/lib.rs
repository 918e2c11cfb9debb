//! A small numeric geometry toolkit: generic fixed-dimension vector algebra
//! over a structural numeric-capability hierarchy, and a great-circle
//! navigation engine built on the N-vector representation.
pub mod geodetic;
pub mod line;
pub mod polar;
pub mod polygon;
pub mod tensor;
pub mod traits;
pub mod units;
pub mod vector;
