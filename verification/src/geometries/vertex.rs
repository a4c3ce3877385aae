//! A vertex: an immutable geographic coordinate pair, latitude and longitude
//! in degrees, each held as the bit pattern of its IEEE-754 double value.

use vstd::prelude::*;

use crate::float_bits::spec_eq;

verus! {

/// A geographic coordinate: latitude and longitude in degrees, each field
/// the `f64::to_bits` pattern of the coordinate's double value.  No range is
/// enforced: out-of-range coordinates are accepted and carried through.
#[derive(Clone, Copy, Debug)]
pub struct Vertex {
    pub latitude: u64,
    pub longitude: u64,
}

/// Exact value equality of two vertices: IEEE-754 equality on both
/// coordinates, with no tolerance.  Two vertices differing in the last bit
/// of either coordinate are unequal; a vertex with a NaN coordinate equals
/// nothing, itself included.
pub open spec fn spec_vertex_eq(a: Vertex, b: Vertex) -> bool {
    spec_eq(a.latitude, b.latitude) && spec_eq(a.longitude, b.longitude)
}

impl Vertex {
    /// Builds a vertex from the bit patterns of its two coordinates.  Total:
    /// every pair of patterns is accepted.
    pub fn new(latitude: u64, longitude: u64) -> (v: Vertex)
        ensures
            v.latitude == latitude,
            v.longitude == longitude,
    {
        Vertex { latitude, longitude }
    }

    /// Compares this vertex with another under exact value equality.
    pub fn is_equal(&self, other_vertex: &Vertex) -> (r: bool)
        ensures
            r == spec_vertex_eq(*self, *other_vertex),
    {
        self == other_vertex
    }
}

impl PartialEq for Vertex {
    fn eq(&self, other: &Self) -> (r: bool) {
        crate::float_bits::eq(self.latitude, other.latitude) && crate::float_bits::eq(
            self.longitude,
            other.longitude,
        )
    }
}

impl vstd::std_specs::cmp::PartialEqSpecImpl for Vertex {
    open spec fn obeys_eq_spec() -> bool {
        true
    }

    open spec fn eq_spec(&self, other: &Vertex) -> bool {
        spec_vertex_eq(*self, *other)
    }
}

} // verus!
