//! Polygons: ordered coordinate lists of at least three points, validated at
//! construction and immutable after it, with decomposition into the chain of
//! segments between consecutive points.
use vstd::prelude::*;

use crate::line::Line;

verus! {

/// Error of constructing a polygon.
#[derive(Debug, Clone, Copy, PartialEq, Eq)]
pub enum CreatePolygonError {
    /// Fewer than three points were supplied; the count is carried along.
    ListOfPointsTooShort { length: usize },
}

/// An ordered list of at least three coordinates.
pub struct Polygon<Coordinate> {
    points: Vec<Coordinate>,
}

impl<Coordinate> View for Polygon<Coordinate> {
    type V = Seq<Coordinate>;

    closed spec fn view(&self) -> Seq<Coordinate> {
        self.points@
    }
}

impl<Coordinate> Polygon<Coordinate> {
    /// Wraps an ordered point list as a polygon; fewer than three points are
    /// rejected, carrying the offending count. Other code relies on every
    /// polygon holding at least three points.
    pub fn new(points: Vec<Coordinate>) -> (r: Result<Self, CreatePolygonError>)
        ensures
            match r {
                Ok(p) => points@.len() >= 3 && p@ == points@,
                Err(e) => points@.len() < 3 && e == (CreatePolygonError::ListOfPointsTooShort {
                    length: points@.len() as usize,
                }),
            },
    {
        if points.len() < 3 {
            return Err(CreatePolygonError::ListOfPointsTooShort { length: points.len() });
        }
        Ok(Self { points })
    }
}

impl<Coordinate: Copy> Polygon<Coordinate> {
    /// The chain of segments between consecutive points: one segment from
    /// each point to the next, in order.
    pub fn lines(&self) -> (r: Vec<Line<Coordinate>>)
        ensures
            r@.len() == self@.len() - 1,
            forall|i: int|
                0 <= i < r@.len() ==> (#[trigger] r@[i]).x0_spec() == self@[i] && r@[i].x1_spec()
                    == self@[i + 1],
    {
        proof {
            use_type_invariant(self);
        }
        let mut lines: Vec<Line<Coordinate>> = Vec::new();
        let mut i: usize = 1;
        while i < self.points.len()
            invariant
                1 <= i <= self@.len(),
                3 <= self@.len(),
                lines@.len() == i - 1,
                forall|j: int|
                    0 <= j < lines@.len() ==> (#[trigger] lines@[j]).x0_spec() == self@[j]
                        && lines@[j].x1_spec() == self@[j + 1],
            decreases self@.len() - i,
        {
            lines.push(Line::new(self.points[i - 1], self.points[i]));
            i = i + 1;
        }
        lines
    }
}

impl<Coordinate> Polygon<Coordinate> {
    /// Every polygon holds at least three points.
    #[verifier::type_invariant]
    spec fn wf(self) -> bool {
        self.points@.len() >= 3
    }
}

} // verus!
