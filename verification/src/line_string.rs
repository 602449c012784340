//! A path of coordinates, and a collection of paths.

use crate::coord::Coord;
use crate::map_coords::{
    lemma_parts_accepted, lemma_parts_mapped, map_parts, map_parts_in_place, map_run,
    map_run_in_place, views, MapCoords, MapCoordsInPlace,
};
use crate::tree::{CoordTree, ShapeKind};
use vstd::prelude::*;

verus! {

/// A path through any number of coordinates, in order. A ring is a path
/// that ends where it starts.
#[derive(Debug, PartialEq)]
pub struct LineString<T>(pub Vec<Coord<T>>);

impl<T> View for LineString<T> {
    type V = CoordTree<T>;

    /// A run of the path's coordinates.
    open spec fn view(&self) -> CoordTree<T> {
        CoordTree::Run { kind: ShapeKind::LineString, points: self.0@ }
    }
}

impl<T> LineString<T> {
    /// The path through `coords`, in their order.
    pub fn new(coords: Vec<Coord<T>>) -> (r: Self)
        ensures
            r.0 == coords,
    {
        LineString(coords)
    }
}

impl<T: Copy, NT> MapCoords<T, NT> for LineString<T> {
    type Output = LineString<NT>;

    fn map_coords<F: Fn(Coord<T>) -> Coord<NT> + Copy>(&self, f: F) -> (r: LineString<NT>) {
        LineString(map_run(&self.0, f))
    }
}

impl<T: Copy> MapCoordsInPlace<T> for LineString<T> {
    fn map_coords_in_place<F: Fn(Coord<T>) -> Coord<T> + Copy>(&mut self, f: F) {
        map_run_in_place(&mut self.0, f);
    }
}

/// A collection of paths, in order.
#[derive(Debug, PartialEq)]
pub struct MultiLineString<T>(pub Vec<LineString<T>>);

impl<T> View for MultiLineString<T> {
    type V = CoordTree<T>;

    /// A group with one part for each path.
    open spec fn view(&self) -> CoordTree<T> {
        CoordTree::Group { kind: ShapeKind::MultiLineString, parts: views(self.0@) }
    }
}

impl<T> MultiLineString<T> {
    /// The collection of `lines`, in their order.
    pub fn new(lines: Vec<LineString<T>>) -> (r: Self)
        ensures
            r.0 == lines,
    {
        MultiLineString(lines)
    }
}

impl<T: Copy, NT> MapCoords<T, NT> for MultiLineString<T> {
    type Output = MultiLineString<NT>;

    fn map_coords<F: Fn(Coord<T>) -> Coord<NT> + Copy>(&self, f: F) -> (r: MultiLineString<NT>) {
        proof {
            lemma_parts_accepted(ShapeKind::MultiLineString, self.0@, f);
        }
        let r = MultiLineString(map_parts(&self.0, f));
        proof {
            lemma_parts_mapped(ShapeKind::MultiLineString, self.0@, r.0@, f);
        }
        r
    }
}

impl<T: Copy> MapCoordsInPlace<T> for MultiLineString<T> {
    fn map_coords_in_place<F: Fn(Coord<T>) -> Coord<T> + Copy>(&mut self, f: F) {
        proof {
            lemma_parts_accepted(ShapeKind::MultiLineString, self.0@, f);
        }
        map_parts_in_place(&mut self.0, f);
        proof {
            lemma_parts_mapped(ShapeKind::MultiLineString, old(self).0@, self.0@, f);
        }
    }
}

} // verus!
