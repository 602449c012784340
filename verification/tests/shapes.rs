use angle_unit::{
    AngleFloat, Coord, Geometry, GeometryCollection, Line, LineString, MapCoords,
    MapCoordsInPlace, MultiLineString, MultiPoint, MultiPolygon, Point, Polygon, Rect,
    ToDegrees, ToDegreesInPlace, ToRadians, ToRadiansInPlace, Triangle,
};
use approx::{AbsDiffEq, RelativeEq};
use std::f64::consts::PI;

/// A double-precision number as the library's numeric type.
#[derive(Clone, Copy, Debug, PartialEq)]
struct Real(f64);

impl AngleFloat for Real {
    fn radians(self) -> Self {
        Real(self.0.to_radians())
    }

    fn degrees(self) -> Self {
        Real(self.0.to_degrees())
    }

    fn to_radians(self) -> Self {
        Real(self.0.to_radians())
    }

    fn to_degrees(self) -> Self {
        Real(self.0.to_degrees())
    }
}

/// A single-precision number as the library's numeric type.
#[derive(Clone, Copy, Debug, PartialEq)]
struct Single(f32);

impl AngleFloat for Single {
    fn radians(self) -> Self {
        Single(self.0.to_radians())
    }

    fn degrees(self) -> Self {
        Single(self.0.to_degrees())
    }

    fn to_radians(self) -> Self {
        Single(self.0.to_radians())
    }

    fn to_degrees(self) -> Self {
        Single(self.0.to_degrees())
    }
}

fn close(a: Real, b: Real) -> bool {
    a.0.relative_eq(&b.0, f64::default_epsilon(), f64::default_max_relative())
}

fn close_coords(a: Coord<Real>, b: Coord<Real>) -> bool {
    close(a.x, b.x) && close(a.y, b.y)
}

fn close_rings(a: &LineString<Real>, b: &LineString<Real>) -> bool {
    a.0.len() == b.0.len() && a.0.iter().zip(b.0.iter()).all(|(p, q)| close_coords(*p, *q))
}

fn close_polygons(a: &Polygon<Real>, b: &Polygon<Real>) -> bool {
    close_rings(&a.exterior, &b.exterior)
        && a.interiors.len() == b.interiors.len()
        && a.interiors.iter().zip(b.interiors.iter()).all(|(p, q)| close_rings(p, q))
}

fn coord(x: f64, y: f64) -> Coord<Real> {
    Coord { x: Real(x), y: Real(y) }
}

fn ring(points: &[(f64, f64)]) -> LineString<Real> {
    LineString::new(points.iter().map(|&(x, y)| coord(x, y)).collect())
}

fn square_with_holes() -> Polygon<Real> {
    Polygon::new(
        ring(&[(0., 0.), (90., 0.), (90., 90.), (0., 90.), (0., 0.)]),
        vec![
            ring(&[(10., 10.), (20., 10.), (20., 20.), (10., 10.)]),
            ring(&[(30., 30.), (45., 30.), (45., 45.), (30., 45.), (30., 40.), (30., 30.)]),
        ],
    )
}

fn triangle_polygon() -> Polygon<Real> {
    Polygon::new(ring(&[(-180., -90.), (180., -90.), (0., 90.), (-180., -90.)]), vec![])
}

fn mixed_collection() -> GeometryCollection<Real> {
    GeometryCollection::new(vec![
        Geometry::Point(Point::new(Real(180.), Real(90.))),
        Geometry::Line(Line::new(coord(90., 180.), coord(0., -90.))),
        Geometry::GeometryCollection(GeometryCollection::new(vec![
            Geometry::Polygon(square_with_holes()),
            Geometry::GeometryCollection(GeometryCollection::new(vec![])),
            Geometry::MultiPoint(MultiPoint::new(vec![
                Point::new(Real(45.), Real(45.)),
                Point::new(Real(-45.), Real(135.)),
            ])),
        ])),
        Geometry::Rect(Rect::new(coord(-90., -45.), coord(90., 45.))),
        Geometry::Triangle(Triangle::new(coord(0., 0.), coord(60., 0.), coord(0., 60.))),
    ])
}

#[test]
fn polygon_keeps_its_rings_and_points() {
    let p = square_with_holes();
    let r = p.to_radians();
    assert_eq!(r.exterior.0.len(), 5);
    assert_eq!(r.interiors.len(), 2);
    assert_eq!(r.interiors[0].0.len(), 4);
    assert_eq!(r.interiors[1].0.len(), 6);
    assert!(close_coords(r.exterior.0[2], coord(PI / 2., PI / 2.)));
    assert!(close_coords(r.interiors[1].0[1], coord(PI / 4., PI / 6.)));
    assert!(close_coords(r.interiors[1].0[4], coord(PI / 6., 40f64.to_radians())));
}

#[test]
fn polygon_is_left_as_it_was_by_copy_mode() {
    let p = square_with_holes();
    let _ = p.to_radians();
    assert_eq!(p, square_with_holes());
}

#[test]
fn polygon_round_trip() {
    let p = square_with_holes();
    let back = p.to_radians().to_degrees();
    assert!(close_polygons(&back, &p));
    let q = triangle_polygon();
    let back = q.to_degrees().to_radians();
    assert!(close_polygons(&back, &q));
}

#[test]
fn in_place_equals_copy_on_polygon() {
    let mut p = square_with_holes();
    p.to_radians_in_place();
    assert_eq!(p, square_with_holes().to_radians());
    let mut q = square_with_holes();
    q.to_degrees_in_place();
    assert_eq!(q, square_with_holes().to_degrees());
}

#[test]
fn in_place_equals_copy_on_collection() {
    let mut c = mixed_collection();
    c.to_radians_in_place();
    assert_eq!(c, mixed_collection().to_radians());
    let mut g = Geometry::GeometryCollection(mixed_collection());
    g.to_degrees_in_place();
    assert_eq!(g, Geometry::GeometryCollection(mixed_collection()).to_degrees());
}

#[test]
fn collection_keeps_kinds_order_and_nesting() {
    let r = mixed_collection().to_radians();
    assert_eq!(r.0.len(), 5);
    match &r.0[0] {
        Geometry::Point(p) => assert!(close_coords(p.0, coord(PI, PI / 2.))),
        other => panic!("not a point: {:?}", other),
    }
    match &r.0[1] {
        Geometry::Line(l) => {
            assert!(close_coords(l.start, coord(PI / 2., PI)));
            assert!(close_coords(l.end, coord(0., -PI / 2.)));
        }
        other => panic!("not a line: {:?}", other),
    }
    match &r.0[2] {
        Geometry::GeometryCollection(inner) => {
            assert_eq!(inner.0.len(), 3);
            match &inner.0[0] {
                Geometry::Polygon(p) => assert!(close_polygons(p, &square_with_holes().to_radians())),
                other => panic!("not a polygon: {:?}", other),
            }
            match &inner.0[1] {
                Geometry::GeometryCollection(empty) => assert!(empty.0.is_empty()),
                other => panic!("not a collection: {:?}", other),
            }
            match &inner.0[2] {
                Geometry::MultiPoint(m) => {
                    assert_eq!(m.0.len(), 2);
                    assert!(close_coords(m.0[1].0, coord(-PI / 4., 3. * PI / 4.)));
                }
                other => panic!("not a multi-point: {:?}", other),
            }
        }
        other => panic!("not a collection: {:?}", other),
    }
    match &r.0[3] {
        Geometry::Rect(rect) => {
            assert!(close_coords(rect.min, coord(-PI / 2., -PI / 4.)));
            assert!(close_coords(rect.max, coord(PI / 2., PI / 4.)));
        }
        other => panic!("not a rectangle: {:?}", other),
    }
    match &r.0[4] {
        Geometry::Triangle(t) => {
            assert!(close_coords(t.0, coord(0., 0.)));
            assert!(close_coords(t.1, coord(PI / 3., 0.)));
            assert!(close_coords(t.2, coord(0., PI / 3.)));
        }
        other => panic!("not a triangle: {:?}", other),
    }
}

#[test]
fn every_variant_keeps_its_kind() {
    let shapes = vec![
        Geometry::Point(Point::new(Real(1.), Real(2.))),
        Geometry::Line(Line::new(coord(1., 2.), coord(3., 4.))),
        Geometry::LineString(ring(&[(1., 2.)])),
        Geometry::Polygon(triangle_polygon()),
        Geometry::MultiPoint(MultiPoint::new(vec![Point::new(Real(1.), Real(2.))])),
        Geometry::MultiLineString(MultiLineString::new(vec![ring(&[(1., 2.)])])),
        Geometry::MultiPolygon(MultiPolygon::new(vec![triangle_polygon()])),
        Geometry::GeometryCollection(GeometryCollection::new(vec![])),
        Geometry::Rect(Rect::new(coord(1., 2.), coord(3., 4.))),
        Geometry::Triangle(Triangle::new(coord(1., 2.), coord(3., 4.), coord(5., 6.))),
    ];
    for (i, g) in shapes.iter().enumerate() {
        let r = g.to_radians();
        let same = match (g, &r) {
            (Geometry::Point(_), Geometry::Point(_)) => true,
            (Geometry::Line(_), Geometry::Line(_)) => true,
            (Geometry::LineString(a), Geometry::LineString(b)) => a.0.len() == b.0.len(),
            (Geometry::Polygon(a), Geometry::Polygon(b)) => a.exterior.0.len() == b.exterior.0.len(),
            (Geometry::MultiPoint(a), Geometry::MultiPoint(b)) => a.0.len() == b.0.len(),
            (Geometry::MultiLineString(a), Geometry::MultiLineString(b)) => a.0.len() == b.0.len(),
            (Geometry::MultiPolygon(a), Geometry::MultiPolygon(b)) => a.0.len() == b.0.len(),
            (Geometry::GeometryCollection(a), Geometry::GeometryCollection(b)) => {
                a.0.len() == b.0.len()
            }
            (Geometry::Rect(_), Geometry::Rect(_)) => true,
            (Geometry::Triangle(_), Geometry::Triangle(_)) => true,
            _ => false,
        };
        assert!(same, "shape {} changed its kind", i);
    }
}

#[test]
fn multi_polygon_keeps_its_structure() {
    let m = MultiPolygon::new(vec![square_with_holes(), triangle_polygon(), square_with_holes()]);
    let r = m.to_radians();
    assert_eq!(r.0.len(), 3);
    assert_eq!(r.0[0].interiors.len(), 2);
    assert_eq!(r.0[1].interiors.len(), 0);
    assert_eq!(r.0[1].exterior.0.len(), 4);
    assert_eq!(r.0[2].interiors[1].0.len(), 6);
    assert!(close_polygons(&r.0[1], &triangle_polygon().to_radians()));
    assert!(close_coords(r.0[1].exterior.0[0], coord(-PI, -PI / 2.)));
    let mut n = MultiPolygon::new(vec![square_with_holes(), triangle_polygon(), square_with_holes()]);
    n.to_radians_in_place();
    assert_eq!(n, r);
}

#[test]
fn multi_line_string_is_converted_path_by_path() {
    let m = MultiLineString::new(vec![
        ring(&[(0., 180.), (90., 45.)]),
        ring(&[]),
        ring(&[(-180., 30.), (60., -60.), (360., 0.)]),
    ]);
    let r = m.to_radians();
    assert_eq!(r.0.len(), 3);
    assert!(close_rings(&r.0[0], &ring(&[(0., PI), (PI / 2., PI / 4.)])));
    assert!(r.0[1].0.is_empty());
    assert!(close_rings(&r.0[2], &ring(&[(-PI, PI / 6.), (PI / 3., -PI / 3.), (2. * PI, 0.)])));
    let back = r.to_degrees();
    assert!(close_rings(&back.0[2], &m.0[2]));
}

#[test]
fn empty_shapes_stay_empty() {
    let mut ls: LineString<Real> = LineString::new(vec![]);
    assert!(ls.to_radians().0.is_empty());
    ls.to_degrees_in_place();
    assert!(ls.0.is_empty());
    let mut mp: MultiPoint<Real> = MultiPoint::new(vec![]);
    assert!(mp.to_degrees().0.is_empty());
    mp.to_radians_in_place();
    assert!(mp.0.is_empty());
    let p: Polygon<Real> = Polygon::new(LineString::new(vec![]), vec![LineString::new(vec![])]);
    let r = p.to_radians();
    assert!(r.exterior.0.is_empty());
    assert_eq!(r.interiors.len(), 1);
    assert!(r.interiors[0].0.is_empty());
    let c: GeometryCollection<Real> = GeometryCollection::new(vec![]);
    assert!(c.to_radians().0.is_empty());
}

#[test]
fn converting_twice_is_not_converting_once() {
    let line = Line::new(coord(90.0, 180.), coord(0., -90.));
    let once = line.to_radians();
    let twice = once.to_radians();
    assert_ne!(once, twice);
    assert!(!close(once.start.x, twice.start.x));
    assert!(close(twice.start.x, Real(PI * PI / 360.)));
    assert!(close(twice.start.y, Real(PI * PI / 180.)));
    assert_eq!(twice.end.x, Real(0.));
    let d = line.to_degrees();
    let dd = d.to_degrees();
    assert_ne!(d, dd);
}

#[test]
fn rect_and_triangle_in_place() {
    let mut r = Rect::new(coord(PI, -PI), coord(2. * PI, PI / 2.));
    r.to_degrees_in_place();
    assert!(close_coords(r.min, coord(180., -180.)));
    assert!(close_coords(r.max, coord(360., 90.)));
    let mut t = Triangle::new(coord(30., 60.), coord(90., 120.), coord(150., 180.));
    t.to_radians_in_place();
    assert!(close_coords(t.0, coord(PI / 6., PI / 3.)));
    assert!(close_coords(t.1, coord(PI / 2., 2. * PI / 3.)));
    assert!(close_coords(t.2, coord(5. * PI / 6., PI)));
}

#[test]
fn single_precision_numbers_convert_too() {
    let line = Line::new(
        Coord { x: Single(90.0), y: Single(180.) },
        Coord { x: Single(0.), y: Single(-90.) },
    );
    let r = line.to_radians();
    let pi = std::f32::consts::PI;
    assert!(r.start.x.0.relative_eq(&(pi / 2.), f32::default_epsilon(), f32::default_max_relative()));
    assert!(r.start.y.0.relative_eq(&pi, f32::default_epsilon(), f32::default_max_relative()));
    assert_eq!(r.end.x.0, 0.);
    assert!(r.end.y.0.relative_eq(&(-pi / 2.), f32::default_epsilon(), f32::default_max_relative()));
}

#[test]
fn map_coords_applies_the_function_to_every_coordinate() {
    let p = square_with_holes();
    let shifted = p.map_coords(|c: Coord<Real>| Coord { x: Real(c.x.0 + 1.), y: Real(c.y.0 * 2.) });
    assert_eq!(shifted.exterior, ring(&[(1., 0.), (91., 0.), (91., 180.), (1., 180.), (1., 0.)]));
    assert_eq!(shifted.interiors[0], ring(&[(11., 20.), (21., 20.), (21., 40.), (11., 20.)]));
    assert_eq!(shifted.interiors[1].0[4], coord(31., 80.));
    assert_eq!(p, square_with_holes());
}

#[test]
fn map_coords_may_change_the_numeric_type() {
    let l = Line::new(coord(1.5, -2.5), coord(100.25, 0.));
    let cells: Line<i64> = l.map_coords(|c: Coord<Real>| Coord { x: c.x.0.floor() as i64, y: c.y.0.floor() as i64 });
    assert_eq!(cells, Line::new(Coord { x: 1, y: -3 }, Coord { x: 100, y: 0 }));
    let c = GeometryCollection::new(vec![
        Geometry::Point(Point::new(7i32, 8i32)),
        Geometry::LineString(LineString::new(vec![Coord { x: 1i32, y: 2i32 }, Coord { x: 3, y: 4 }])),
    ]);
    let wide: GeometryCollection<i64> = c.map_coords(|c: Coord<i32>| Coord { x: c.x as i64 * 10, y: c.y as i64 * 10 });
    assert_eq!(
        wide,
        GeometryCollection::new(vec![
            Geometry::Point(Point::new(70i64, 80i64)),
            Geometry::LineString(LineString::new(vec![Coord { x: 10i64, y: 20i64 }, Coord { x: 30, y: 40 }])),
        ])
    );
}

#[test]
fn map_coords_in_place_overwrites_every_coordinate() {
    let mut m = MultiPoint::new(vec![Point::new(1i32, 2i32), Point::new(3, 4), Point::new(5, 6)]);
    m.map_coords_in_place(|c: Coord<i32>| Coord { x: c.y, y: -c.x });
    assert_eq!(m, MultiPoint::new(vec![Point::new(2, -1), Point::new(4, -3), Point::new(6, -5)]));
    let mut g = Geometry::GeometryCollection(GeometryCollection::new(vec![
        Geometry::Triangle(Triangle::new(Coord { x: 1, y: 1 }, Coord { x: 2, y: 2 }, Coord { x: 3, y: 3 })),
        Geometry::GeometryCollection(GeometryCollection::new(vec![Geometry::Rect(Rect::new(
            Coord { x: 0, y: 0 },
            Coord { x: 9, y: 9 },
        ))])),
    ]));
    g.map_coords_in_place(|c: Coord<i32>| Coord { x: c.x + 1, y: c.y - 1 });
    assert_eq!(
        g,
        Geometry::GeometryCollection(GeometryCollection::new(vec![
            Geometry::Triangle(Triangle::new(Coord { x: 2, y: 0 }, Coord { x: 3, y: 1 }, Coord { x: 4, y: 2 })),
            Geometry::GeometryCollection(GeometryCollection::new(vec![Geometry::Rect(Rect::new(
                Coord { x: 1, y: -1 },
                Coord { x: 10, y: 8 },
            ))])),
        ]))
    );
}

#[test]
fn rect_corners_are_kept_in_their_places() {
    let r = Rect::new(Coord { x: 1i32, y: 2i32 }, Coord { x: 3, y: 4 });
    let flipped = r.map_coords(|c: Coord<i32>| Coord { x: -c.x, y: -c.y });
    assert_eq!(flipped.min, Coord { x: -1, y: -2 });
    assert_eq!(flipped.max, Coord { x: -3, y: -4 });
}
