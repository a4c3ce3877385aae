//! A line between two distinct vertices on the Earth's surface.

use vstd::prelude::*;

use crate::errors::SpatialError;
use crate::float_bits::spec_is_nan;
use crate::geometries::vertex::Vertex;
use crate::geometries::vertex::spec_vertex_eq;

verus! {

/// An ordered pair of two distinct vertices.  The non-degeneracy invariant
/// — the endpoints differ under exact value equality — is enforced by the
/// validating constructor and never broken afterwards: a line is immutable.
#[derive(Clone, Copy, Debug)]
pub struct Line {
    pub starting_vertex: Vertex,
    pub ending_vertex: Vertex,
}

impl Line {
    /// Builds a line between two vertices.  Fails with `DegenerateSegment`,
    /// carrying both offending vertices, exactly when the two are equal
    /// under exact value equality; succeeds on every other pair, copying
    /// both vertices into the new line.
    pub fn new(starting_vertex: Vertex, ending_vertex: Vertex) -> (r: Result<Line, SpatialError>)
        ensures
            r is Ok <==> !spec_vertex_eq(starting_vertex, ending_vertex),
            r matches Ok(line) ==> line.starting_vertex == starting_vertex
                && line.ending_vertex == ending_vertex,
            r matches Err(e) ==> e == (SpatialError::DegenerateSegment {
                start: starting_vertex,
                end: ending_vertex,
            }),
    {
        if !Self::line_is_valid(&starting_vertex, &ending_vertex) {
            Err(SpatialError::DegenerateSegment { start: starting_vertex, end: ending_vertex })
        } else {
            Ok(Line { starting_vertex, ending_vertex })
        }
    }

    /// Checks that the starting and ending vertices differ.
    fn line_is_valid(starting_vertex: &Vertex, ending_vertex: &Vertex) -> (r: bool)
        ensures
            r == !spec_vertex_eq(*starting_vertex, *ending_vertex),
    {
        !starting_vertex.is_equal(ending_vertex)
    }
}

/// A line from a vertex to itself is always refused: vertex equality is
/// reflexive off NaN coordinates, and by its contract `Line::new` fails
/// exactly on equal endpoints.  A vertex carrying a NaN coordinate is the
/// one exception: it equals nothing, itself included, so such a pair is
/// accepted.
pub proof fn lemma_same_vertex_is_degenerate(p: Vertex)
    requires
        !spec_is_nan(p.latitude),
        !spec_is_nan(p.longitude),
    ensures
        spec_vertex_eq(p, p),
{
}

/// Whether a line may be built between two vertices does not depend on the
/// direction: vertex equality is symmetric, and by its contract `Line::new`
/// succeeds exactly on unequal endpoints, so a pair accepted one way round
/// is accepted the other way round too.
pub proof fn lemma_line_direction_independent(a: Vertex, b: Vertex)
    ensures
        spec_vertex_eq(a, b) == spec_vertex_eq(b, a),
{
}

} // verus!
