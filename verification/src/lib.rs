//! Geospatial primitives: vertices, lines between them, and connected paths,
//! together with the decision logic of the distance routines that measure
//! them.
//!
//! Coordinates are carried as the 64-bit patterns of their IEEE-754 double
//! values, so that the comparison semantics the data model depends on (exact
//! value equality, ordering, the zero test) are implemented and proved here
//! as plain bit logic.  The floating-point arithmetic itself (Haversine,
//! Euclidean and Vincenty formulas, coordinate projection, rendering of
//! coordinates) lives outside this library, in the program built around it.

pub mod errors;
pub mod float_bits;
pub mod geometries;
pub mod math;
