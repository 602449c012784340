//! A triangle.

use crate::coord::Coord;
use crate::map_coords::{MapCoords, MapCoordsInPlace};
use crate::tree::{CoordTree, ShapeKind};
use vstd::prelude::*;

verus! {

/// A triangle given by its three corners.
#[derive(Debug, PartialEq)]
pub struct Triangle<T>(pub Coord<T>, pub Coord<T>, pub Coord<T>);

impl<T: Copy> Clone for Triangle<T> {
    fn clone(&self) -> (r: Self)
        ensures
            r == *self,
    {
        *self
    }
}

impl<T: Copy> Copy for Triangle<T> {

}

impl<T> View for Triangle<T> {
    type V = CoordTree<T>;

    /// A run of the three corners, in order.
    open spec fn view(&self) -> CoordTree<T> {
        CoordTree::Run { kind: ShapeKind::Triangle, points: seq![self.0, self.1, self.2] }
    }
}

impl<T> Triangle<T> {
    /// The triangle with the corners `a`, `b` and `c`, in this order.
    pub fn new(a: Coord<T>, b: Coord<T>, c: Coord<T>) -> (r: Self)
        ensures
            r.0 == a,
            r.1 == b,
            r.2 == c,
    {
        Triangle(a, b, c)
    }
}

impl<T: Copy, NT> MapCoords<T, NT> for Triangle<T> {
    type Output = Triangle<NT>;

    fn map_coords<F: Fn(Coord<T>) -> Coord<NT> + Copy>(&self, f: F) -> (r: Triangle<NT>) {
        assert(self@->points[0] == self.0 && self@->points[1] == self.1 && self@->points[2] == self.2);
        let r = Triangle(f(self.0), f(self.1), f(self.2));
        assert(r@->points[0] == r.0 && r@->points[1] == r.1 && r@->points[2] == r.2);
        r
    }
}

impl<T: Copy> MapCoordsInPlace<T> for Triangle<T> {
    fn map_coords_in_place<F: Fn(Coord<T>) -> Coord<T> + Copy>(&mut self, f: F) {
        assert(self@->points[0] == self.0 && self@->points[1] == self.1 && self@->points[2] == self.2);
        self.0 = f(self.0);
        self.1 = f(self.1);
        self.2 = f(self.2);
        assert(self@->points[0] == self.0 && self@->points[1] == self.1 && self@->points[2] == self.2);
    }
}

} // verus!
