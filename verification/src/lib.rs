//! Operator-overloading building blocks, verified: a generic complex-number
//! pair with arithmetic operators, an interval type with a genuinely partial
//! order, a row-major pixel buffer with row views, and a key-value table
//! whose indexing is explicit lookup.

pub mod complex;
pub mod image;
pub mod interval;
pub mod table;

pub use complex::Complex;
pub use image::Image;
pub use interval::Interval;
pub use table::Table;
