//! Any one shape, and a collection of shapes of any kind.

use crate::coord::Coord;
use crate::line::Line;
use crate::line_string::{LineString, MultiLineString};
use crate::map_coords::{
    lemma_parts_accepted, lemma_parts_mapped, map_parts, map_parts_in_place, views, MapCoords,
    MapCoordsInPlace,
};
use crate::point::{MultiPoint, Point};
use crate::polygon::{MultiPolygon, Polygon};
use crate::rect::Rect;
use crate::tree::{CoordTree, ShapeKind};
use crate::triangle::Triangle;
use vstd::prelude::*;

verus! {

/// A shape of any kind.
#[derive(Debug, PartialEq)]
pub enum Geometry<T> {
    Point(Point<T>),
    Line(Line<T>),
    LineString(LineString<T>),
    Polygon(Polygon<T>),
    MultiPoint(MultiPoint<T>),
    MultiLineString(MultiLineString<T>),
    MultiPolygon(MultiPolygon<T>),
    GeometryCollection(GeometryCollection<T>),
    Rect(Rect<T>),
    Triangle(Triangle<T>),
}

/// A collection of shapes of any kind, in order. A member may itself be a
/// collection.
#[derive(Debug, PartialEq)]
pub struct GeometryCollection<T>(pub Vec<Geometry<T>>);

impl<T> Geometry<T> {
    /// The tree of the shape that `self` holds.
    pub open spec fn tree(&self) -> CoordTree<T>
        decreases self,
    {
        match self {
            Geometry::Point(g) => g@,
            Geometry::Line(g) => g@,
            Geometry::LineString(g) => g@,
            Geometry::Polygon(g) => g@,
            Geometry::MultiPoint(g) => g@,
            Geometry::MultiLineString(g) => g@,
            Geometry::MultiPolygon(g) => g@,
            Geometry::GeometryCollection(g) => CoordTree::Group {
                kind: ShapeKind::GeometryCollection,
                parts: Seq::new(
                    g.0@.len(),
                    |i: int|
                        if 0 <= i < g.0@.len() {
                            g.0@[i].tree()
                        } else {
                            CoordTree::Run { kind: ShapeKind::GeometryCollection, points: Seq::empty() }
                        },
                ),
            },
            Geometry::Rect(g) => g@,
            Geometry::Triangle(g) => g@,
        }
    }
}

impl<T> View for Geometry<T> {
    type V = CoordTree<T>;

    /// The view of the shape that `self` holds: the kind at its root tells
    /// which kind of shape that is.
    open spec fn view(&self) -> CoordTree<T> {
        self.tree()
    }
}

impl<T> View for GeometryCollection<T> {
    type V = CoordTree<T>;

    /// A group with one part for each member.
    open spec fn view(&self) -> CoordTree<T> {
        CoordTree::Group { kind: ShapeKind::GeometryCollection, parts: views(self.0@) }
    }
}

/// A collection held in a `Geometry` has the view of the collection.
pub proof fn lemma_collection_view<T>(g: Geometry<T>)
    requires
        g is GeometryCollection,
    ensures
        g@ == g->GeometryCollection_0@,
{
    assert(g@->parts =~= g->GeometryCollection_0@->parts);
}

/// The kind at the root of a `Geometry`'s view tells which kind of shape it
/// holds, so a view belongs to one variant only.
pub proof fn lemma_kind_tells_variant<T>(g: Geometry<T>)
    ensures
        g is Point <==> g@.kind() == ShapeKind::Point,
        g is Line <==> g@.kind() == ShapeKind::Line,
        g is LineString <==> g@.kind() == ShapeKind::LineString,
        g is Polygon <==> g@.kind() == ShapeKind::Polygon,
        g is MultiPoint <==> g@.kind() == ShapeKind::MultiPoint,
        g is MultiLineString <==> g@.kind() == ShapeKind::MultiLineString,
        g is MultiPolygon <==> g@.kind() == ShapeKind::MultiPolygon,
        g is GeometryCollection <==> g@.kind() == ShapeKind::GeometryCollection,
        g is Rect <==> g@.kind() == ShapeKind::Rect,
        g is Triangle <==> g@.kind() == ShapeKind::Triangle,
{
}

impl<T> GeometryCollection<T> {
    /// The collection of `members`, in their order.
    pub fn new(members: Vec<Geometry<T>>) -> (r: Self)
        ensures
            r.0 == members,
    {
        GeometryCollection(members)
    }
}

/// Maps a shape of any kind into a new shape of the same kind.
pub fn map_geometry<T: Copy, NT, F: Fn(Coord<T>) -> Coord<NT> + Copy>(g: &Geometry<T>, f: F) -> (r:
    Geometry<NT>)
    requires
        g@.accepted_by(f),
    ensures
        g@.mapped_by(f, r@),
    decreases g,
{
    match g {
        Geometry::Point(s) => Geometry::Point(s.map_coords(f)),
        Geometry::Line(s) => Geometry::Line(s.map_coords(f)),
        Geometry::LineString(s) => Geometry::LineString(s.map_coords(f)),
        Geometry::Polygon(s) => Geometry::Polygon(s.map_coords(f)),
        Geometry::MultiPoint(s) => Geometry::MultiPoint(s.map_coords(f)),
        Geometry::MultiLineString(s) => Geometry::MultiLineString(s.map_coords(f)),
        Geometry::MultiPolygon(s) => Geometry::MultiPolygon(s.map_coords(f)),
        Geometry::GeometryCollection(s) => {
            proof {
                lemma_collection_view(*g);
                lemma_parts_accepted(ShapeKind::GeometryCollection, s.0@, f);
            }
            let mut out: Vec<Geometry<NT>> = Vec::with_capacity(s.0.len());
            let mut i: usize = 0;
            while i < s.0.len()
                invariant
                    i <= s.0.len(),
                    out.len() == i,
                    g is GeometryCollection,
                    g->GeometryCollection_0 == s,
                    forall|j: int| 0 <= j < s.0.len() ==> (#[trigger] s.0@[j])@.accepted_by(f),
                    forall|j: int| 0 <= j < i ==> (#[trigger] s.0@[j])@.mapped_by(f, out@[j]@),
                decreases s.0.len() - i,
            {
                out.push(map_geometry(&s.0[i], f));
                i += 1;
            }
            let r = Geometry::GeometryCollection(GeometryCollection(out));
            proof {
                lemma_collection_view(r);
                lemma_parts_mapped(ShapeKind::GeometryCollection, s.0@, out@, f);
            }
            r
        },
        Geometry::Rect(s) => Geometry::Rect(s.map_coords(f)),
        Geometry::Triangle(s) => Geometry::Triangle(s.map_coords(f)),
    }
}

impl<T: Copy, NT> MapCoords<T, NT> for Geometry<T> {
    type Output = Geometry<NT>;

    fn map_coords<F: Fn(Coord<T>) -> Coord<NT> + Copy>(&self, f: F) -> (r: Geometry<NT>) {
        map_geometry(self, f)
    }
}

/// Maps a shape of any kind in place.
pub fn map_geometry_in_place<T: Copy, F: Fn(Coord<T>) -> Coord<T> + Copy>(g: &mut Geometry<T>, f: F)
    requires
        old(g)@.accepted_by(f),
    ensures
        old(g)@.mapped_by(f, final(g)@),
    decreases *old(g),
{
    match g {
        Geometry::Point(s) => s.map_coords_in_place(f),
        Geometry::Line(s) => s.map_coords_in_place(f),
        Geometry::LineString(s) => s.map_coords_in_place(f),
        Geometry::Polygon(s) => s.map_coords_in_place(f),
        Geometry::MultiPoint(s) => s.map_coords_in_place(f),
        Geometry::MultiLineString(s) => s.map_coords_in_place(f),
        Geometry::MultiPolygon(s) => s.map_coords_in_place(f),
        Geometry::GeometryCollection(s) => {
            let ghost before = *s;
            proof {
                lemma_collection_view(*old(g));
                lemma_parts_accepted(ShapeKind::GeometryCollection, before.0@, f);
            }
            let mut i: usize = 0;
            while i < s.0.len()
                invariant
                    i <= s.0.len(),
                    s.0.len() == before.0.len(),
                    *old(g) is GeometryCollection,
                    (*old(g))->GeometryCollection_0 == before,
                    forall|j: int|
                        0 <= j < before.0.len() ==> (#[trigger] before.0@[j])@.accepted_by(f),
                    forall|j: int| 0 <= j < i ==> (#[trigger] before.0@[j])@.mapped_by(f, s.0@[j]@),
                    forall|j: int| i <= j < s.0.len() ==> s.0@[j] == before.0@[j],
                decreases s.0.len() - i,
            {
                assert(s.0@[i as int] == before.0@[i as int]);
                let part = &mut s.0[i];
                map_geometry_in_place(part, f);
                i += 1;
            }
            proof {
                lemma_parts_mapped(ShapeKind::GeometryCollection, before.0@, s.0@, f);
            }
        },
        Geometry::Rect(s) => s.map_coords_in_place(f),
        Geometry::Triangle(s) => s.map_coords_in_place(f),
    }
    proof {
        if *g is GeometryCollection {
            lemma_collection_view(*g);
        }
    }
}

impl<T: Copy> MapCoordsInPlace<T> for Geometry<T> {
    fn map_coords_in_place<F: Fn(Coord<T>) -> Coord<T> + Copy>(&mut self, f: F) {
        map_geometry_in_place(self, f)
    }
}

impl<T: Copy, NT> MapCoords<T, NT> for GeometryCollection<T> {
    type Output = GeometryCollection<NT>;

    fn map_coords<F: Fn(Coord<T>) -> Coord<NT> + Copy>(&self, f: F) -> (r: GeometryCollection<NT>) {
        proof {
            lemma_parts_accepted(ShapeKind::GeometryCollection, self.0@, f);
        }
        let r = GeometryCollection(map_parts(&self.0, f));
        proof {
            lemma_parts_mapped(ShapeKind::GeometryCollection, self.0@, r.0@, f);
        }
        r
    }
}

impl<T: Copy> MapCoordsInPlace<T> for GeometryCollection<T> {
    fn map_coords_in_place<F: Fn(Coord<T>) -> Coord<T> + Copy>(&mut self, f: F) {
        proof {
            lemma_parts_accepted(ShapeKind::GeometryCollection, self.0@, f);
        }
        map_parts_in_place(&mut self.0, f);
        proof {
            lemma_parts_mapped(ShapeKind::GeometryCollection, old(self).0@, self.0@, f);
        }
    }
}

} // verus!
