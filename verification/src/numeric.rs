//! The numeric type of a coordinate's components.

use vstd::prelude::*;

verus! {

/// A number that can hold an angle in degrees or in radians.
///
/// The library is generic over this trait and never looks inside a number.
/// An implementation supplies the two conversions, for a floating-point
/// type its own `to_radians` and `to_degrees`. `radians` and `degrees` name
/// what they return, so that contracts can speak of converted values.
///
/// No type of this library implements the trait, so what is proved through
/// it rests on what an implementation promises and nothing here checks:
/// that `to_radians` and `to_degrees` return, and that each is a function
/// of its argument alone, returning the value that `radians` or `degrees`
/// names. Nothing is said of what that value is: it need not be in any
/// range, and a value that is not a number may come back as one.
///
/// An implementation in code that is not verified writes `radians` and
/// `degrees` as the computations that `to_radians` and `to_degrees` make.
pub trait AngleFloat: Copy {
    /// The value of `self`, read as degrees, in radians.
    spec fn radians(self) -> Self;

    /// The value of `self`, read as radians, in degrees.
    spec fn degrees(self) -> Self;

    /// Converts degrees to radians.
    fn to_radians(self) -> (r: Self)
        ensures
            r == self.radians(),
    ;

    /// Converts radians to degrees.
    fn to_degrees(self) -> (r: Self)
        ensures
            r == self.degrees(),
    ;
}

} // verus!
