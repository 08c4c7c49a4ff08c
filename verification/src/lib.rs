//! Conway's Game of Life on a torus, together with the data a renderer needs
//! to present it: per-cell rectangles, a small bitmap-font overlay, buffer
//! capacities and pointer hit-testing.
//!
//! Every executable function states in a contract what it returns or
//! changes. The contracts are proved, but for those of the three functions
//! that call into `rand` and into the standard library's case folding:
//! these are marked, and are believed.
//!
//! Geometry is computed in exact integer arithmetic: a coordinate is a
//! numerator over a denominator shared by the whole stream, so a front end
//! only has to divide.

pub mod buffers;
pub mod events;
pub mod frame;
pub mod geometry;
pub mod glyph;
pub mod grid;
pub mod layout;
pub mod random;
pub mod session;
pub mod surface;
