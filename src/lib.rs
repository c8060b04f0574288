//! Layout of shapes (squares, rectangles, circles and ellipses) that may
//! embed content, in exact integer arithmetic.

pub mod geometry;
pub mod style;
pub mod frame;
pub mod shape;
