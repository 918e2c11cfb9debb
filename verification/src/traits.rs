//! The numeric capability hierarchy: structural traits that concrete number
//! types satisfy, and that the vector and geometry layers are generic over.
pub mod number;
pub mod pow;
pub mod scalar;
pub mod sqrt;
pub mod trig;
