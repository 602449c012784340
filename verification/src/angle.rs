//! Conversion of a whole shape between degrees and radians.
//!
//! Each of the four operations is the coordinate mapper applied to one
//! coordinate transform. Any shape that can be mapped has them; none is
//! written per kind of shape.

use crate::coord::Coord;
use crate::map_coords::{MapCoords, MapCoordsInPlace};
use crate::numeric::AngleFloat;
use crate::tree::CoordTree;
use crate::tree_laws::lemma_mapped_is_map;
use vstd::prelude::*;

verus! {

impl<T: AngleFloat> CoordTree<T> {
    /// The tree with every coordinate converted from degrees to radians.
    pub open spec fn radians(self) -> Self {
        self.map(Coord::radians_fn())
    }

    /// The tree with every coordinate converted from radians to degrees.
    pub open spec fn degrees(self) -> Self {
        self.map(Coord::degrees_fn())
    }
}

/// Shapes that can be converted from degrees to radians into a new shape.
pub trait ToRadians<T: AngleFloat>: Sized + MapCoords<T, T, Output = Self> {
    /// A shape of the same structure whose every coordinate is the
    /// coordinate of `self` at the same place, converted to radians.
    fn to_radians(&self) -> (r: Self)
        ensures
            r@ == self@.radians(),
    {
        let convert = |c: Coord<T>| -> (d: Coord<T>)
            ensures
                d == c.radians(),
            { c.to_radians() };
        let r = self.map_coords(convert);
        proof {
            lemma_mapped_is_map(self@, convert, r@, Coord::radians_fn());
        }
        r
    }
}

impl<T: AngleFloat, G: MapCoords<T, T, Output = Self>> ToRadians<T> for G {

}

/// Shapes that can be converted from degrees to radians where they are.
pub trait ToRadiansInPlace<T: AngleFloat>: MapCoordsInPlace<T> {
    /// Overwrites every coordinate of `self` by its value in radians and
    /// leaves the structure as it is.
    fn to_radians_in_place(&mut self)
        ensures
            final(self)@ == old(self)@.radians(),
    {
        let convert = |c: Coord<T>| -> (d: Coord<T>)
            ensures
                d == c.radians(),
            { c.to_radians() };
        self.map_coords_in_place(convert);
        proof {
            lemma_mapped_is_map(old(self)@, convert, self@, Coord::radians_fn());
        }
    }
}

impl<T: AngleFloat, G: MapCoordsInPlace<T>> ToRadiansInPlace<T> for G {

}

/// Shapes that can be converted from radians to degrees into a new shape.
pub trait ToDegrees<T: AngleFloat>: Sized + MapCoords<T, T, Output = Self> {
    /// A shape of the same structure whose every coordinate is the
    /// coordinate of `self` at the same place, converted to degrees.
    fn to_degrees(&self) -> (r: Self)
        ensures
            r@ == self@.degrees(),
    {
        let convert = |c: Coord<T>| -> (d: Coord<T>)
            ensures
                d == c.degrees(),
            { c.to_degrees() };
        let r = self.map_coords(convert);
        proof {
            lemma_mapped_is_map(self@, convert, r@, Coord::degrees_fn());
        }
        r
    }
}

impl<T: AngleFloat, G: MapCoords<T, T, Output = Self>> ToDegrees<T> for G {

}

/// Shapes that can be converted from radians to degrees where they are.
pub trait ToDegreesInPlace<T: AngleFloat>: MapCoordsInPlace<T> {
    /// Overwrites every coordinate of `self` by its value in degrees and
    /// leaves the structure as it is.
    fn to_degrees_in_place(&mut self)
        ensures
            final(self)@ == old(self)@.degrees(),
    {
        let convert = |c: Coord<T>| -> (d: Coord<T>)
            ensures
                d == c.degrees(),
            { c.to_degrees() };
        self.map_coords_in_place(convert);
        proof {
            lemma_mapped_is_map(old(self)@, convert, self@, Coord::degrees_fn());
        }
    }
}

impl<T: AngleFloat, G: MapCoordsInPlace<T>> ToDegreesInPlace<T> for G {

}

} // verus!
