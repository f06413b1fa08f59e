//! Conversion of model files: what is quantized, what is copied, and how the
//! result reaches its place.

pub mod policy;
pub mod request;
pub mod tally;
pub mod aqua;
pub mod atomic;
