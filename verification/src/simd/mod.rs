//! SIMD building blocks.

pub mod neon;
