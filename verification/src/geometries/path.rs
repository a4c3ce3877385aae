//! A path: an ordered sequence of lines forming a connected polyline.

use vstd::prelude::*;

use crate::errors::SpatialError;
use crate::geometries::line::Line;
use crate::geometries::vertex::spec_vertex_eq;

verus! {

/// The per-line distance a full-path measurement applies: planar Euclidean,
/// or great-circle distance on the mean-radius sphere.
pub enum PathCalcFullDistanceOptions {
    Euclidean,
    EarthRadius,
}

/// An ordered sequence of lines.  The connectivity invariant — every line
/// starts where the line before it ends, under exact vertex equality — is
/// enforced by the validating constructor; a path is immutable afterwards.
/// A path of no lines is legal.  Nothing is required of closedness: a path
/// may or may not return to its own start.
pub struct Path {
    pub lines: Vec<Line>,
}

/// The line at `index` is connected to the line before it: it starts at the
/// vertex where line `index - 1` ends.
pub open spec fn spec_connected_at(lines: Seq<Line>, index: int) -> bool {
    spec_vertex_eq(lines[index - 1].ending_vertex, lines[index].starting_vertex)
}

/// Every adjacent pair of lines is connected: the sequence forms a single
/// polyline.  Holds trivially of the empty sequence and of one line.
pub open spec fn spec_path_connected(lines: Seq<Line>) -> bool {
    forall|i: int| 1 <= i < lines.len() ==> spec_connected_at(lines, i)
}

impl Path {
    /// Builds a path from a sequence of lines, validating the whole
    /// sequence.  Succeeds exactly when every adjacent pair is connected,
    /// keeping the lines as given.  Otherwise fails fast on the first
    /// broken adjacency, reporting its index pair through
    /// `DisconnectedPath { index }`: the line at `index` does not start
    /// where the line at `index - 1` ends, and every earlier adjacency
    /// holds.
    pub fn new(lines: Vec<Line>) -> (r: Result<Path, SpatialError>)
        ensures
            r is Ok <==> spec_path_connected(lines@),
            r matches Ok(path) ==> path.lines@ == lines@,
            r matches Err(e) ==> (e matches SpatialError::DisconnectedPath { index } && 1 <= index
                < lines@.len() && !spec_connected_at(lines@, index as int) && (forall|j: int|
                1 <= j < index ==> spec_connected_at(lines@, j))),
    {
        let mut i: usize = 1;
        while i < lines.len()
            invariant
                1 <= i,
                forall|j: int| 1 <= j < i ==> spec_connected_at(lines@, j),
            decreases lines.len() - i,
        {
            if !Self::path_is_valid(&lines[i - 1], &lines[i]) {
                proof {
                    assert(!spec_connected_at(lines@, i as int));
                }
                return Err(SpatialError::DisconnectedPath { index: i });
            }
            i = i + 1;
        }
        Ok(Path { lines })
    }

    /// Checks that `current_line` starts where `last_line` ends.
    fn path_is_valid(last_line: &Line, current_line: &Line) -> (r: bool)
        ensures
            r == spec_vertex_eq(last_line.ending_vertex, current_line.starting_vertex),
    {
        last_line.ending_vertex.is_equal(&current_line.starting_vertex)
    }
}

} // verus!
