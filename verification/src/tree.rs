//! The mathematical value of a shape: a tree of coordinates.
//!
//! Every shape is viewed as a tree. A leaf is a run of coordinates in order
//! (a point, the two ends of a line, the points of a ring); an inner node is a
//! group of parts in order (the rings of a polygon, the members of a
//! collection). Each node carries the kind of shape it stands for. The
//! topology of a shape is its tree without the coordinate values.

use crate::coord::Coord;
use vstd::prelude::*;

verus! {

/// The kinds of shape.
pub ghost enum ShapeKind {
    Point,
    Line,
    LineString,
    Polygon,
    MultiPoint,
    MultiLineString,
    MultiPolygon,
    Rect,
    Triangle,
    GeometryCollection,
}

/// The structure of a shape: kinds, nesting and counts, without values.
pub ghost enum Topology {
    Run { kind: ShapeKind, len: nat },
    Group { kind: ShapeKind, parts: Seq<Topology> },
}

/// The value of a shape.
pub ghost enum CoordTree<T> {
    Run { kind: ShapeKind, points: Seq<Coord<T>> },
    Group { kind: ShapeKind, parts: Seq<CoordTree<T>> },
}

/// `f` may be called on every coordinate of `s`.
pub open spec fn each_accepted<T, NT, F: Fn(Coord<T>) -> Coord<NT>>(f: F, s: Seq<Coord<T>>) -> bool {
    forall|i: int| 0 <= i < s.len() ==> call_requires(f, (#[trigger] s[i],))
}

/// `r` has the length of `s`, and each coordinate of `r` is a result of `f`
/// on the coordinate of `s` at the same place.
pub open spec fn each_mapped<T, NT, F: Fn(Coord<T>) -> Coord<NT>>(
    f: F,
    s: Seq<Coord<T>>,
    r: Seq<Coord<NT>>,
) -> bool {
    &&& r.len() == s.len()
    &&& forall|i: int| 0 <= i < s.len() ==> call_ensures(f, (s[i],), #[trigger] r[i])
}

/// The function that returns each coordinate as it is.
pub open spec fn identity<T>() -> spec_fn(Coord<T>) -> Coord<T> {
    |c: Coord<T>| c
}

/// The function that applies `g` and then `h`.
pub open spec fn composed<T, U, V>(
    g: spec_fn(Coord<T>) -> Coord<U>,
    h: spec_fn(Coord<U>) -> Coord<V>,
) -> spec_fn(Coord<T>) -> Coord<V> {
    |c: Coord<T>| h(g(c))
}

impl<T> CoordTree<T> {
    /// The kind at the root.
    pub open spec fn kind(self) -> ShapeKind {
        match self {
            CoordTree::Run { kind, .. } => kind,
            CoordTree::Group { kind, .. } => kind,
        }
    }

    /// The tree without its coordinate values.
    pub open spec fn topology(self) -> Topology
        decreases self,
    {
        match self {
            CoordTree::Run { kind, points } => Topology::Run { kind, len: points.len() },
            CoordTree::Group { kind, parts } => Topology::Group {
                kind,
                parts: Seq::new(
                    parts.len(),
                    |i: int|
                        if 0 <= i < parts.len() {
                            parts[i].topology()
                        } else {
                            Topology::Run { kind, len: 0 }
                        },
                ),
            },
        }
    }

    /// All coordinates in traversal order: part by part, and within a run
    /// point by point.
    pub open spec fn coords(self) -> Seq<Coord<T>>
        decreases self, 1nat,
    {
        match self {
            CoordTree::Run { points, .. } => points,
            CoordTree::Group { .. } => self.part_coords().flatten(),
        }
    }

    /// The coordinates of each part, part by part; none for a run.
    pub open spec fn part_coords(self) -> Seq<Seq<Coord<T>>>
        decreases self, 0nat,
    {
        match self {
            CoordTree::Run { .. } => Seq::empty(),
            CoordTree::Group { parts, .. } => Seq::new(
                parts.len(),
                |i: int|
                    if 0 <= i < parts.len() {
                        parts[i].coords()
                    } else {
                        Seq::empty()
                    },
            ),
        }
    }

    /// The tree with `g` applied to every coordinate.
    pub open spec fn map<NT>(self, g: spec_fn(Coord<T>) -> Coord<NT>) -> CoordTree<NT>
        decreases self,
    {
        match self {
            CoordTree::Run { kind, points } => CoordTree::Run { kind, points: points.map_values(g) },
            CoordTree::Group { kind, parts } => CoordTree::Group {
                kind,
                parts: Seq::new(
                    parts.len(),
                    |i: int|
                        if 0 <= i < parts.len() {
                            parts[i].map(g)
                        } else {
                            CoordTree::Run { kind, points: Seq::empty() }
                        },
                ),
            },
        }
    }

    /// `f` may be called on every coordinate of the tree.
    pub open spec fn accepted_by<NT, F: Fn(Coord<T>) -> Coord<NT>>(self, f: F) -> bool {
        each_accepted(f, self.coords())
    }

    /// `to` is what mapping `self` by `f` may give: it has the topology of
    /// `self`, and its coordinates are, in traversal order, results of `f` on
    /// the coordinates of `self`.
    pub open spec fn mapped_by<NT, F: Fn(Coord<T>) -> Coord<NT>>(self, f: F, to: CoordTree<NT>) -> bool {
        &&& to.topology() == self.topology()
        &&& each_mapped(f, self.coords(), to.coords())
    }
}

} // verus!
