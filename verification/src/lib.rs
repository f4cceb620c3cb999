//! Sine, cosine and tangent by table lookup, one entry per whole degree.

pub mod binary64;
pub mod degree;
pub mod tangent;
pub mod table;
pub mod range;
pub mod calculator;
