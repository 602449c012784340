//! What holds of the conversions between degrees and radians, on every
//! shape and for every numeric type.

use crate::coord::Coord;
use crate::numeric::AngleFloat;
use crate::tree::{composed, identity, CoordTree};
use crate::tree_laws::{
    lemma_map_agrees, lemma_map_coords, lemma_map_keeps_topology, lemma_map_map, lemma_map_same,
};
use vstd::prelude::*;

verus! {

/// Conversion keeps the structure of a shape: the converted shape has the
/// topology of the shape it came from, with the same kinds, nesting, number
/// of parts and number of points in each run. It has as many coordinates,
/// and the one at each place in traversal order is the one that stood there,
/// converted.
pub proof fn law_conversion_keeps_structure<T: AngleFloat>(t: CoordTree<T>)
    ensures
        t.radians().topology() == t.topology(),
        t.degrees().topology() == t.topology(),
        t.radians().coords().len() == t.coords().len(),
        t.degrees().coords().len() == t.coords().len(),
        forall|i: int|
            0 <= i < t.coords().len() ==> #[trigger] t.radians().coords()[i]
                == t.coords()[i].radians(),
        forall|i: int|
            0 <= i < t.coords().len() ==> #[trigger] t.degrees().coords()[i]
                == t.coords()[i].degrees(),
{
    lemma_map_keeps_topology(t, Coord::radians_fn());
    lemma_map_keeps_topology(t, Coord::degrees_fn());
    lemma_map_coords(t, Coord::radians_fn());
    lemma_map_coords(t, Coord::degrees_fn());
}

/// Converting a copy of a shape in place gives what converting the shape
/// into a new one gives. `before` is the tree of the shape, `copied` the
/// tree of what `to_radians` returns for it, `mutated` the tree that
/// `to_radians_in_place` leaves of a copy of it; or the same with
/// `to_degrees` and `to_degrees_in_place`.
pub proof fn law_in_place_matches_copy<T: AngleFloat>(
    before: CoordTree<T>,
    copied: CoordTree<T>,
    mutated: CoordTree<T>,
)
    requires
        (copied == before.radians() && mutated == before.radians()) || (copied == before.degrees()
            && mutated == before.degrees()),
    ensures
        mutated == copied,
        mutated.topology() == before.topology(),
{
    lemma_map_keeps_topology(before, Coord::radians_fn());
    lemma_map_keeps_topology(before, Coord::degrees_fn());
}

/// Converting to radians and back to degrees gives the shape back exactly
/// if it gives every coordinate of the shape back.
pub proof fn law_round_trip_from_degrees<T: AngleFloat>(t: CoordTree<T>)
    ensures
        t.radians().degrees() == t <==> forall|i: int|
            0 <= i < t.coords().len() ==> (#[trigger] t.coords()[i]).radians().degrees()
                == t.coords()[i],
{
    let there_and_back = composed(Coord::<T>::radians_fn(), Coord::<T>::degrees_fn());
    lemma_map_map(t, Coord::radians_fn(), Coord::degrees_fn());
    lemma_map_agrees(t, there_and_back, identity());
    lemma_map_same(t);
}

/// Converting to degrees and back to radians gives the shape back exactly
/// if it gives every coordinate of the shape back.
pub proof fn law_round_trip_from_radians<T: AngleFloat>(t: CoordTree<T>)
    ensures
        t.degrees().radians() == t <==> forall|i: int|
            0 <= i < t.coords().len() ==> (#[trigger] t.coords()[i]).degrees().radians()
                == t.coords()[i],
{
    let there_and_back = composed(Coord::<T>::degrees_fn(), Coord::<T>::radians_fn());
    lemma_map_map(t, Coord::degrees_fn(), Coord::radians_fn());
    lemma_map_agrees(t, there_and_back, identity());
    lemma_map_same(t);
}

/// Conversion is not idempotent: converting to radians a second time
/// leaves the shape as the first conversion made it only if no coordinate
/// is changed by the second conversion. One coordinate that it changes
/// makes the two shapes differ.
pub proof fn law_radians_twice<T: AngleFloat>(t: CoordTree<T>)
    ensures
        t.radians().radians() == t.radians() <==> forall|i: int|
            0 <= i < t.coords().len() ==> (#[trigger] t.coords()[i]).radians().radians()
                == t.coords()[i].radians(),
{
    let twice = composed(Coord::<T>::radians_fn(), Coord::<T>::radians_fn());
    lemma_map_map(t, Coord::radians_fn(), Coord::radians_fn());
    lemma_map_agrees(t, twice, Coord::radians_fn());
}

/// Converting to degrees a second time leaves the shape as the first
/// conversion made it only if no coordinate is changed by the second
/// conversion.
pub proof fn law_degrees_twice<T: AngleFloat>(t: CoordTree<T>)
    ensures
        t.degrees().degrees() == t.degrees() <==> forall|i: int|
            0 <= i < t.coords().len() ==> (#[trigger] t.coords()[i]).degrees().degrees()
                == t.coords()[i].degrees(),
{
    let twice = composed(Coord::<T>::degrees_fn(), Coord::<T>::degrees_fn());
    lemma_map_map(t, Coord::degrees_fn(), Coord::degrees_fn());
    lemma_map_agrees(t, twice, Coord::degrees_fn());
}

} // verus!
