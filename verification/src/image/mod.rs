//! Image output.

pub mod output;
