//! A single point, and a collection of points.

use crate::coord::Coord;
use crate::map_coords::{
    lemma_parts_accepted, lemma_parts_mapped, map_parts, map_parts_in_place, views, MapCoords,
    MapCoordsInPlace,
};
use crate::tree::{CoordTree, ShapeKind};
use vstd::prelude::*;

verus! {

/// A point: one coordinate.
#[derive(Debug, PartialEq)]
pub struct Point<T>(pub Coord<T>);

impl<T: Copy> Clone for Point<T> {
    fn clone(&self) -> (r: Self)
        ensures
            r == *self,
    {
        *self
    }
}

impl<T: Copy> Copy for Point<T> {

}

impl<T> View for Point<T> {
    type V = CoordTree<T>;

    /// A run of one coordinate.
    open spec fn view(&self) -> CoordTree<T> {
        CoordTree::Run { kind: ShapeKind::Point, points: seq![self.0] }
    }
}

impl<T> Point<T> {
    /// The point at (`x`, `y`).
    pub fn new(x: T, y: T) -> (r: Self)
        ensures
            r.0 == (Coord { x, y }),
    {
        Point(Coord { x, y })
    }
}

impl<T: Copy, NT> MapCoords<T, NT> for Point<T> {
    type Output = Point<NT>;

    fn map_coords<F: Fn(Coord<T>) -> Coord<NT> + Copy>(&self, f: F) -> (r: Point<NT>) {
        assert(self@->points[0] == self.0);
        let r = Point(f(self.0));
        assert(r@->points[0] == r.0);
        r
    }
}

impl<T: Copy> MapCoordsInPlace<T> for Point<T> {
    fn map_coords_in_place<F: Fn(Coord<T>) -> Coord<T> + Copy>(&mut self, f: F) {
        assert(self@->points[0] == self.0);
        self.0 = f(self.0);
        assert(self@->points[0] == self.0);
    }
}

/// A collection of points, in order.
#[derive(Debug, PartialEq)]
pub struct MultiPoint<T>(pub Vec<Point<T>>);

impl<T> View for MultiPoint<T> {
    type V = CoordTree<T>;

    /// A group with one part for each point.
    open spec fn view(&self) -> CoordTree<T> {
        CoordTree::Group { kind: ShapeKind::MultiPoint, parts: views(self.0@) }
    }
}

impl<T> MultiPoint<T> {
    /// The collection of `points`, in their order.
    pub fn new(points: Vec<Point<T>>) -> (r: Self)
        ensures
            r.0 == points,
    {
        MultiPoint(points)
    }
}

impl<T: Copy, NT> MapCoords<T, NT> for MultiPoint<T> {
    type Output = MultiPoint<NT>;

    fn map_coords<F: Fn(Coord<T>) -> Coord<NT> + Copy>(&self, f: F) -> (r: MultiPoint<NT>) {
        proof {
            lemma_parts_accepted(ShapeKind::MultiPoint, self.0@, f);
        }
        let r = MultiPoint(map_parts(&self.0, f));
        proof {
            lemma_parts_mapped(ShapeKind::MultiPoint, self.0@, r.0@, f);
        }
        r
    }
}

impl<T: Copy> MapCoordsInPlace<T> for MultiPoint<T> {
    fn map_coords_in_place<F: Fn(Coord<T>) -> Coord<T> + Copy>(&mut self, f: F) {
        proof {
            lemma_parts_accepted(ShapeKind::MultiPoint, self.0@, f);
        }
        map_parts_in_place(&mut self.0, f);
        proof {
            lemma_parts_mapped(ShapeKind::MultiPoint, old(self).0@, self.0@, f);
        }
    }
}

} // verus!
