//! The state and the rules of a small calculator, over IEEE 754 binary64 bit patterns.
//!
//! Numbers cross this library's boundary as the sixty-four bits of a double. The
//! caller does the floating-point arithmetic and the logging; the library decides
//! when an operation is refused, what is stored, and what there is to report.

pub mod accumulator;
pub mod binary64;
