//! A single coordinate pair and its conversion between angle units.

use crate::numeric::AngleFloat;
use vstd::prelude::*;

verus! {

/// A position given by two numbers. It has no identity beyond its value.
#[derive(Debug, PartialEq)]
pub struct Coord<T> {
    pub x: T,
    pub y: T,
}

impl<T: Copy> Clone for Coord<T> {
    fn clone(&self) -> (r: Self)
        ensures
            r == *self,
    {
        *self
    }
}

impl<T: Copy> Copy for Coord<T> {

}

impl<T: AngleFloat> Coord<T> {
    /// Both components converted from degrees to radians.
    pub open spec fn radians(self) -> Self {
        Coord { x: self.x.radians(), y: self.y.radians() }
    }

    /// Both components converted from radians to degrees.
    pub open spec fn degrees(self) -> Self {
        Coord { x: self.x.degrees(), y: self.y.degrees() }
    }

    /// `radians` as a function on coordinates.
    pub open spec fn radians_fn() -> spec_fn(Coord<T>) -> Coord<T> {
        |c: Coord<T>| c.radians()
    }

    /// `degrees` as a function on coordinates.
    pub open spec fn degrees_fn() -> spec_fn(Coord<T>) -> Coord<T> {
        |c: Coord<T>| c.degrees()
    }

    /// Converts each component from degrees to radians, independently.
    pub fn to_radians(self) -> (r: Self)
        ensures
            r == self.radians(),
    {
        Coord { x: self.x.to_radians(), y: self.y.to_radians() }
    }

    /// Converts each component from radians to degrees, independently.
    pub fn to_degrees(self) -> (r: Self)
        ensures
            r == self.degrees(),
    {
        Coord { x: self.x.to_degrees(), y: self.y.to_degrees() }
    }
}

} // verus!
