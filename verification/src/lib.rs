//! 2D shape tessellation over fixed-point coordinates.
//!
//! The library converts shape descriptions (triangles, rectangles, regular
//! polygons, circles, ellipses, lines, arcs) into triangulated vertex and
//! index buffers and hands them to a renderer sink. Coordinates, extents and
//! angles are fixed-point numbers with a 16-bit fraction, so every
//! tessellation step is plain integer arithmetic.

pub mod fx;
pub mod trig;
pub mod geometry;
pub mod shapes;
pub mod laws;
pub mod tobytes;
