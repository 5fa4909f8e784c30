//! Typed style-value model and cascade-ordering core of a CSS-driven
//! layout/rendering pipeline.
//!
//! All quantities are fixed-precision: a scalar is stored as an integer
//! scaled by 1000, which gives deterministic equality, ordering and hashing.

pub mod color;
pub mod geometry;
pub mod gradient;
pub mod property;
pub mod sheet;
pub mod text;
pub mod units;
pub mod value;
