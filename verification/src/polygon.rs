//! A polygon as a list of rings, and a collection of polygons.

use crate::coord::Coord;
use crate::line_string::LineString;
use crate::map_coords::{
    lemma_parts_accepted, lemma_parts_mapped, map_parts, map_parts_in_place, views, MapCoords,
    MapCoordsInPlace,
};
use crate::tree::{CoordTree, ShapeKind};
use crate::tree_laws::{lemma_group_accepted, lemma_group_mapped};
use vstd::prelude::*;

verus! {

/// An area bounded by an outer ring, with any number of inner rings cut out
/// of it. A ring is a path that ends where it starts; the rings are kept as
/// they are given, and nothing here closes one.
#[derive(Debug, PartialEq)]
pub struct Polygon<T> {
    pub exterior: LineString<T>,
    pub interiors: Vec<LineString<T>>,
}

impl<T> View for Polygon<T> {
    type V = CoordTree<T>;

    /// A group of rings: the outer ring first, then the inner rings in
    /// order.
    open spec fn view(&self) -> CoordTree<T> {
        CoordTree::Group {
            kind: ShapeKind::Polygon,
            parts: seq![self.exterior@] + views(self.interiors@),
        }
    }
}

impl<T> Polygon<T> {
    /// The polygon with the outer ring `exterior` and the inner rings
    /// `interiors`, in their order.
    pub fn new(exterior: LineString<T>, interiors: Vec<LineString<T>>) -> (r: Self)
        ensures
            r.exterior == exterior,
            r.interiors == interiors,
    {
        Polygon { exterior, interiors }
    }
}

/// A function that a polygon accepts is accepted by each of its rings.
proof fn lemma_rings_accepted<T, NT, F: Fn(Coord<T>) -> Coord<NT>>(p: &Polygon<T>, f: F)
    requires
        p@.accepted_by(f),
    ensures
        p.exterior@.accepted_by(f),
        forall|i: int| 0 <= i < p.interiors.len() ==> (#[trigger] p.interiors@[i])@.accepted_by(f),
{
    lemma_group_accepted(p@, f);
    assert(p@->parts[0] == p.exterior@);
    assert forall|i: int| 0 <= i < p.interiors.len() implies (#[trigger] p.interiors@[i])@.accepted_by(
        f,
    ) by {
        assert(p@->parts[i + 1] == p.interiors@[i]@);
    }
}

/// Rings that are mapped one by one make a polygon that is mapped.
proof fn lemma_rings_mapped<T, NT, F: Fn(Coord<T>) -> Coord<NT>>(p: &Polygon<T>, q: &Polygon<NT>, f: F)
    requires
        p.exterior@.mapped_by(f, q.exterior@),
        q.interiors.len() == p.interiors.len(),
        forall|i: int|
            0 <= i < p.interiors.len() ==> (#[trigger] p.interiors@[i])@.mapped_by(
                f,
                q.interiors@[i]@,
            ),
    ensures
        p@.mapped_by(f, q@),
{
    assert forall|i: int| 0 <= i < p@->parts.len() implies (#[trigger] p@->parts[i]).mapped_by(
        f,
        q@->parts[i],
    ) by {
        if i > 0 {
            assert(p.interiors@[i - 1]@.mapped_by(f, q.interiors@[i - 1]@));
        }
    }
    lemma_group_mapped(p@, q@, f);
}

impl<T: Copy, NT> MapCoords<T, NT> for Polygon<T> {
    type Output = Polygon<NT>;

    fn map_coords<F: Fn(Coord<T>) -> Coord<NT> + Copy>(&self, f: F) -> (r: Polygon<NT>) {
        proof {
            lemma_rings_accepted(self, f);
        }
        let exterior = self.exterior.map_coords(f);
        let interiors = map_parts(&self.interiors, f);
        let r = Polygon { exterior, interiors };
        proof {
            lemma_rings_mapped(self, &r, f);
        }
        r
    }
}

impl<T: Copy> MapCoordsInPlace<T> for Polygon<T> {
    fn map_coords_in_place<F: Fn(Coord<T>) -> Coord<T> + Copy>(&mut self, f: F) {
        proof {
            lemma_rings_accepted(&*self, f);
        }
        self.exterior.map_coords_in_place(f);
        map_parts_in_place(&mut self.interiors, f);
        proof {
            lemma_rings_mapped(old(self), &*self, f);
        }
    }
}

/// A collection of polygons, in order.
#[derive(Debug, PartialEq)]
pub struct MultiPolygon<T>(pub Vec<Polygon<T>>);

impl<T> View for MultiPolygon<T> {
    type V = CoordTree<T>;

    /// A group with one part for each polygon.
    open spec fn view(&self) -> CoordTree<T> {
        CoordTree::Group { kind: ShapeKind::MultiPolygon, parts: views(self.0@) }
    }
}

impl<T> MultiPolygon<T> {
    /// The collection of `polygons`, in their order.
    pub fn new(polygons: Vec<Polygon<T>>) -> (r: Self)
        ensures
            r.0 == polygons,
    {
        MultiPolygon(polygons)
    }
}

impl<T: Copy, NT> MapCoords<T, NT> for MultiPolygon<T> {
    type Output = MultiPolygon<NT>;

    fn map_coords<F: Fn(Coord<T>) -> Coord<NT> + Copy>(&self, f: F) -> (r: MultiPolygon<NT>) {
        proof {
            lemma_parts_accepted(ShapeKind::MultiPolygon, self.0@, f);
        }
        let r = MultiPolygon(map_parts(&self.0, f));
        proof {
            lemma_parts_mapped(ShapeKind::MultiPolygon, self.0@, r.0@, f);
        }
        r
    }
}

impl<T: Copy> MapCoordsInPlace<T> for MultiPolygon<T> {
    fn map_coords_in_place<F: Fn(Coord<T>) -> Coord<T> + Copy>(&mut self, f: F) {
        proof {
            lemma_parts_accepted(ShapeKind::MultiPolygon, self.0@, f);
        }
        map_parts_in_place(&mut self.0, f);
        proof {
            lemma_parts_mapped(ShapeKind::MultiPolygon, old(self).0@, self.0@, f);
        }
    }
}

} // verus!
