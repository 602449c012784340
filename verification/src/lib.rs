//! Angle-unit conversion for planar shapes: every coordinate of a shape is
//! taken from degrees to radians or back, either into a new shape or in place.
//!
//! The conversion of a whole shape is built on one general mechanism, the
//! coordinate mapper, which applies a function on single coordinates to every
//! coordinate of a shape and keeps the shape's structure.

pub mod angle;
pub mod coord;
pub mod geometry;
pub mod laws;
pub mod line;
pub mod line_string;
pub mod map_coords;
pub mod numeric;
pub mod point;
pub mod polygon;
pub mod rect;
pub mod triangle;
pub mod tree;
pub mod tree_laws;

pub use angle::{ToDegrees, ToDegreesInPlace, ToRadians, ToRadiansInPlace};
pub use coord::Coord;
pub use geometry::{Geometry, GeometryCollection};
pub use line::Line;
pub use line_string::{LineString, MultiLineString};
pub use map_coords::{MapCoords, MapCoordsInPlace};
pub use numeric::AngleFloat;
pub use point::{MultiPoint, Point};
pub use polygon::{MultiPolygon, Polygon};
pub use rect::Rect;
pub use triangle::Triangle;
pub use tree::{CoordTree, ShapeKind, Topology};
