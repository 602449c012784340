//! The coordinate mapper: a function on single coordinates, applied to every
//! coordinate of a shape.

use crate::coord::Coord;
use crate::tree::{each_accepted, each_mapped, CoordTree, ShapeKind};
use crate::tree_laws::{lemma_group_accepted, lemma_group_mapped};
use vstd::prelude::*;

verus! {

/// Shapes whose coordinates can be mapped into a new shape.
///
/// The new shape has the structure of the old one: the same kinds, the same
/// nesting, the same number of parts and of points in every run, in the same
/// order. Only the coordinate values are those that `f` returned.
pub trait MapCoords<T, NT>: View<V = CoordTree<T>> + Sized {
    /// The shape that mapping produces: the same kind of shape over `NT`.
    type Output: View<V = CoordTree<NT>>;

    /// Builds a shape from the results of `f` on each coordinate of `self`.
    /// `self` is left as it is. `f` must be callable on every coordinate of
    /// `self`; a function without a precondition always is.
    fn map_coords<F: Fn(Coord<T>) -> Coord<NT> + Copy>(&self, f: F) -> (r: Self::Output)
        requires
            self@.accepted_by(f),
        ensures
            self@.mapped_by(f, r@),
    ;
}

/// Shapes whose coordinates can be overwritten by their images under a
/// function, with the structure kept as by [`MapCoords`].
pub trait MapCoordsInPlace<T>: View<V = CoordTree<T>> {
    /// Replaces each coordinate of `self` by a result of `f` on it. `f` must
    /// be callable on every coordinate of `self`.
    fn map_coords_in_place<F: Fn(Coord<T>) -> Coord<T> + Copy>(&mut self, f: F)
        requires
            old(self)@.accepted_by(f),
        ensures
            old(self)@.mapped_by(f, final(self)@),
    ;
}

/// The views of the shapes in `s`, in order.
pub open spec fn views<G: View>(s: Seq<G>) -> Seq<G::V> {
    Seq::new(s.len(), |i: int| s[i]@)
}

/// A function that the group of `v` accepts is accepted by each member.
pub proof fn lemma_parts_accepted<T, NT, G: View<V = CoordTree<T>>, F: Fn(Coord<T>) -> Coord<NT>>(
    kind: ShapeKind,
    v: Seq<G>,
    f: F,
)
    requires
        (CoordTree::Group { kind, parts: views(v) }).accepted_by(f),
    ensures
        forall|i: int| 0 <= i < v.len() ==> (#[trigger] v[i])@.accepted_by(f),
{
    let group = CoordTree::Group { kind, parts: views(v) };
    lemma_group_accepted(group, f);
    assert forall|i: int| 0 <= i < v.len() implies (#[trigger] v[i])@.accepted_by(f) by {
        assert(group->parts[i] == v[i]@);
    }
}

/// Members that are mapped one by one make a group that is mapped.
pub proof fn lemma_parts_mapped<
    T,
    NT,
    G: View<V = CoordTree<T>>,
    H: View<V = CoordTree<NT>>,
    F: Fn(Coord<T>) -> Coord<NT>,
>(kind: ShapeKind, v: Seq<G>, out: Seq<H>, f: F)
    requires
        out.len() == v.len(),
        forall|i: int| 0 <= i < v.len() ==> (#[trigger] v[i])@.mapped_by(f, out[i]@),
    ensures
        (CoordTree::Group { kind, parts: views(v) }).mapped_by(
            f,
            CoordTree::Group { kind, parts: views(out) },
        ),
{
    let from = CoordTree::Group { kind, parts: views(v) };
    let to = CoordTree::Group { kind, parts: views(out) };
    assert forall|i: int| 0 <= i < from->parts.len() implies (#[trigger] from->parts[i]).mapped_by(
        f,
        to->parts[i],
    ) by {
        assert(v[i]@.mapped_by(f, out[i]@));
    }
    lemma_group_mapped(from, to, f);
}

/// Maps a run of coordinates into a new run, point by point.
pub fn map_run<T: Copy, NT, F: Fn(Coord<T>) -> Coord<NT> + Copy>(v: &Vec<Coord<T>>, f: F) -> (r: Vec<
    Coord<NT>,
>)
    requires
        each_accepted(f, v@),
    ensures
        each_mapped(f, v@, r@),
{
    let mut out: Vec<Coord<NT>> = Vec::with_capacity(v.len());
    let mut i: usize = 0;
    while i < v.len()
        invariant
            i <= v.len(),
            out.len() == i,
            each_accepted(f, v@),
            forall|j: int| 0 <= j < i ==> call_ensures(f, (v@[j],), #[trigger] out@[j]),
        decreases v.len() - i,
    {
        out.push(f(v[i]));
        i += 1;
    }
    out
}

/// Maps a run of coordinates in place, point by point.
pub fn map_run_in_place<T: Copy, F: Fn(Coord<T>) -> Coord<T> + Copy>(v: &mut Vec<Coord<T>>, f: F)
    requires
        each_accepted(f, old(v)@),
    ensures
        each_mapped(f, old(v)@, final(v)@),
{
    let mut i: usize = 0;
    while i < v.len()
        invariant
            i <= v.len(),
            v.len() == old(v).len(),
            each_accepted(f, old(v)@),
            forall|j: int| 0 <= j < i ==> call_ensures(f, (old(v)@[j],), #[trigger] v@[j]),
            forall|j: int| i <= j < v.len() ==> v@[j] == old(v)@[j],
        decreases v.len() - i,
    {
        let c = f(v[i]);
        v[i] = c;
        i += 1;
    }
}

/// Maps each shape of a list into a new list, part by part.
pub fn map_parts<T, NT, G: MapCoords<T, NT>, F: Fn(Coord<T>) -> Coord<NT> + Copy>(
    v: &Vec<G>,
    f: F,
) -> (r: Vec<G::Output>)
    requires
        forall|i: int| 0 <= i < v.len() ==> (#[trigger] v@[i])@.accepted_by(f),
    ensures
        r.len() == v.len(),
        forall|i: int| 0 <= i < v.len() ==> (#[trigger] v@[i])@.mapped_by(f, r@[i]@),
{
    let mut out: Vec<G::Output> = Vec::with_capacity(v.len());
    let mut i: usize = 0;
    while i < v.len()
        invariant
            i <= v.len(),
            out.len() == i,
            forall|j: int| 0 <= j < v.len() ==> (#[trigger] v@[j])@.accepted_by(f),
            forall|j: int| 0 <= j < i ==> (#[trigger] v@[j])@.mapped_by(f, out@[j]@),
        decreases v.len() - i,
    {
        out.push(v[i].map_coords(f));
        i += 1;
    }
    out
}

/// Maps each shape of a list in place, part by part.
pub fn map_parts_in_place<T, G: MapCoordsInPlace<T>, F: Fn(Coord<T>) -> Coord<T> + Copy>(
    v: &mut Vec<G>,
    f: F,
)
    requires
        forall|i: int| 0 <= i < old(v).len() ==> (#[trigger] old(v)@[i])@.accepted_by(f),
    ensures
        final(v).len() == old(v).len(),
        forall|i: int| 0 <= i < old(v).len() ==> (#[trigger] old(v)@[i])@.mapped_by(f, final(v)@[i]@),
{
    let mut i: usize = 0;
    while i < v.len()
        invariant
            i <= v.len(),
            v.len() == old(v).len(),
            forall|j: int| 0 <= j < old(v).len() ==> (#[trigger] old(v)@[j])@.accepted_by(f),
            forall|j: int| 0 <= j < i ==> (#[trigger] old(v)@[j])@.mapped_by(f, v@[j]@),
            forall|j: int| i <= j < v.len() ==> v@[j] == old(v)@[j],
        decreases v.len() - i,
    {
        let part = &mut v[i];
        part.map_coords_in_place(f);
        i += 1;
    }
}

} // verus!
