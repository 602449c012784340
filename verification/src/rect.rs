//! An axis-aligned rectangle.

use crate::coord::Coord;
use crate::map_coords::{MapCoords, MapCoordsInPlace};
use crate::tree::{CoordTree, ShapeKind};
use vstd::prelude::*;

verus! {

/// A rectangle given by two opposite corners.
#[derive(Debug, PartialEq)]
pub struct Rect<T> {
    pub min: Coord<T>,
    pub max: Coord<T>,
}

impl<T: Copy> Clone for Rect<T> {
    fn clone(&self) -> (r: Self)
        ensures
            r == *self,
    {
        *self
    }
}

impl<T: Copy> Copy for Rect<T> {

}

impl<T> View for Rect<T> {
    type V = CoordTree<T>;

    /// A run of the two corners, `min` first.
    open spec fn view(&self) -> CoordTree<T> {
        CoordTree::Run { kind: ShapeKind::Rect, points: seq![self.min, self.max] }
    }
}

impl<T> Rect<T> {
    /// The rectangle with the corners `min` and `max`, kept as given.
    pub fn new(min: Coord<T>, max: Coord<T>) -> (r: Self)
        ensures
            r.min == min,
            r.max == max,
    {
        Rect { min, max }
    }
}

impl<T: Copy, NT> MapCoords<T, NT> for Rect<T> {
    type Output = Rect<NT>;

    fn map_coords<F: Fn(Coord<T>) -> Coord<NT> + Copy>(&self, f: F) -> (r: Rect<NT>) {
        assert(self@->points[0] == self.min && self@->points[1] == self.max);
        let r = Rect { min: f(self.min), max: f(self.max) };
        assert(r@->points[0] == r.min && r@->points[1] == r.max);
        r
    }
}

impl<T: Copy> MapCoordsInPlace<T> for Rect<T> {
    fn map_coords_in_place<F: Fn(Coord<T>) -> Coord<T> + Copy>(&mut self, f: F) {
        assert(self@->points[0] == self.min && self@->points[1] == self.max);
        self.min = f(self.min);
        self.max = f(self.max);
        assert(self@->points[0] == self.min && self@->points[1] == self.max);
    }
}

} // verus!
