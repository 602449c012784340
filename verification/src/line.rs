//! A line segment.

use crate::coord::Coord;
use crate::map_coords::{MapCoords, MapCoordsInPlace};
use crate::tree::{CoordTree, ShapeKind};
use vstd::prelude::*;

verus! {

/// A segment between two coordinates.
#[derive(Debug, PartialEq)]
pub struct Line<T> {
    pub start: Coord<T>,
    pub end: Coord<T>,
}

impl<T: Copy> Clone for Line<T> {
    fn clone(&self) -> (r: Self)
        ensures
            r == *self,
    {
        *self
    }
}

impl<T: Copy> Copy for Line<T> {

}

impl<T> View for Line<T> {
    type V = CoordTree<T>;

    /// A run of the two ends, `start` first.
    open spec fn view(&self) -> CoordTree<T> {
        CoordTree::Run { kind: ShapeKind::Line, points: seq![self.start, self.end] }
    }
}

impl<T> Line<T> {
    /// The segment from `start` to `end`.
    pub fn new(start: Coord<T>, end: Coord<T>) -> (r: Self)
        ensures
            r.start == start,
            r.end == end,
    {
        Line { start, end }
    }
}

impl<T: Copy, NT> MapCoords<T, NT> for Line<T> {
    type Output = Line<NT>;

    fn map_coords<F: Fn(Coord<T>) -> Coord<NT> + Copy>(&self, f: F) -> (r: Line<NT>) {
        assert(self@->points[0] == self.start && self@->points[1] == self.end);
        let r = Line { start: f(self.start), end: f(self.end) };
        assert(r@->points[0] == r.start && r@->points[1] == r.end);
        r
    }
}

impl<T: Copy> MapCoordsInPlace<T> for Line<T> {
    fn map_coords_in_place<F: Fn(Coord<T>) -> Coord<T> + Copy>(&mut self, f: F) {
        assert(self@->points[0] == self.start && self@->points[1] == self.end);
        self.start = f(self.start);
        self.end = f(self.end);
        assert(self@->points[0] == self.start && self@->points[1] == self.end);
    }
}

} // verus!
