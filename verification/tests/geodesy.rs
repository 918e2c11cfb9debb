use geomath::geodetic::{
    to_nvector, Bearing, CreateGeodeticCoordinate2DError, GeodeticCoordinate2D,
    GeodeticCoordinate2DTrait, GeodeticCoordinate3DTrait, SetBearingError,
};
use geomath::line::{GreatCircleError, Intersect, Length, Line};
use geomath::polar::{CartesianVelocity2D, PolarCoordinates, PolarVelocity2D};
use geomath::traits::number::Zero;
use geomath::traits::scalar::Scalar;
use geomath::traits::sqrt::Sqrt;
use geomath::traits::trig::Trig;
use geomath::traits::sqrt::sqrt;
use geomath::units::{deg2rad, rad2deg, Angle, Distance};
use geomath::vector::{MathVec, MathVecTrait};

/// A 64-bit floating-point scalar plugging into the numeric capability
/// hierarchy from outside the library, as a new numeric type does.
#[derive(Clone, Copy, Debug, PartialEq)]
struct R(f64);

impl Zero for R {
    fn zero_spec() -> R {
        R(0.0)
    }

    fn zero() -> R {
        R(0.0)
    }
}

impl Scalar for R {
    fn add_spec(self, rhs: R) -> R {
        R(self.0 + rhs.0)
    }

    fn sub_spec(self, rhs: R) -> R {
        R(self.0 - rhs.0)
    }

    fn mul_spec(self, rhs: R) -> R {
        R(self.0 * rhs.0)
    }

    fn div_spec(self, rhs: R) -> R {
        R(self.0 / rhs.0)
    }

    fn neg_spec(self) -> R {
        R(-self.0)
    }

    fn le_spec(self, rhs: R) -> bool {
        self.0 <= rhs.0
    }

    fn lt_spec(self, rhs: R) -> bool {
        self.0 < rhs.0
    }

    fn eqv(self, rhs: R) -> bool {
        self.0 == rhs.0
    }

    fn is_real(self) -> bool {
        self.0.is_finite()
    }

    fn add_in_range(self, _rhs: R) -> bool {
        true
    }

    fn mul_in_range(self, _rhs: R) -> bool {
        true
    }

    fn from_u16_spec(v: u16) -> R {
        R(f64::from(v))
    }

    fn law_mul_comm(_a: R, _b: R) {
    }

    fn law_neg_sub(_a: R, _b: R) {
    }

    fn law_sub_square_sym(_a: R, _b: R) {
    }

    fn law_square_nonneg(_a: R) {
    }

    fn law_add_nonneg(_a: R, _b: R) {
    }

    fn law_le_refl(_a: R) {
    }

    fn law_eqv_sym(_a: R, _b: R) {
    }

    fn law_zero_real() {
    }

    fn add(self, rhs: R) -> R {
        R(self.0 + rhs.0)
    }

    fn sub(self, rhs: R) -> R {
        R(self.0 - rhs.0)
    }

    fn mul(self, rhs: R) -> R {
        R(self.0 * rhs.0)
    }

    fn div(self, rhs: R) -> R {
        R(self.0 / rhs.0)
    }

    fn neg(self) -> R {
        R(-self.0)
    }

    fn le(self, rhs: R) -> bool {
        self.0 <= rhs.0
    }

    fn lt(self, rhs: R) -> bool {
        self.0 < rhs.0
    }

    fn eq_val(self, rhs: R) -> bool {
        self.0 == rhs.0
    }

    fn from_u16(v: u16) -> R {
        R(f64::from(v))
    }
}

impl Sqrt for R {
    fn sqrt_spec(self) -> R {
        R(self.0.sqrt())
    }

    fn law_sqrt_nonneg(_a: R) {
    }

    fn sqrt(self) -> R {
        R(self.0.sqrt())
    }
}

impl Trig for R {
    fn sin_spec(self) -> R {
        R(self.0.sin())
    }

    fn asin_spec(self) -> R {
        R(self.0.asin())
    }

    fn asinh_spec(self) -> R {
        R(self.0.asinh())
    }

    fn cos_spec(self) -> R {
        R(self.0.cos())
    }

    fn acos_spec(self) -> R {
        R(self.0.acos())
    }

    fn acosh_spec(self) -> R {
        R(self.0.acosh())
    }

    fn tan_spec(self) -> R {
        R(self.0.tan())
    }

    fn atan_spec(self) -> R {
        R(self.0.atan())
    }

    fn atan2_spec(self, other: R) -> R {
        R(self.0.atan2(other.0))
    }

    fn atanh_spec(self) -> R {
        R(self.0.atanh())
    }

    fn pi_spec() -> R {
        R(std::f64::consts::PI)
    }

    fn law_ops_total(_a: R, _b: R) {
    }

    fn sin(self) -> R {
        R(self.0.sin())
    }

    fn asin(self) -> R {
        R(self.0.asin())
    }

    fn asinh(self) -> R {
        R(self.0.asinh())
    }

    fn cos(self) -> R {
        R(self.0.cos())
    }

    fn acos(self) -> R {
        R(self.0.acos())
    }

    fn acosh(self) -> R {
        R(self.0.acosh())
    }

    fn tan(self) -> R {
        R(self.0.tan())
    }

    fn atan(self) -> R {
        R(self.0.atan())
    }

    fn atan2(self, other: R) -> R {
        R(self.0.atan2(other.0))
    }

    fn atanh(self) -> R {
        R(self.0.atanh())
    }

    fn pi() -> R {
        R(std::f64::consts::PI)
    }
}

fn approx(a: f64, b: f64, eps: f64) -> bool {
    (a - b).abs() <= eps
}

fn coord(lat_deg: f64, lon_deg: f64) -> GeodeticCoordinate2D<R> {
    GeodeticCoordinate2D::new(Angle::from_degrees(R(lat_deg)), Angle::from_degrees(R(lon_deg)))
        .unwrap()
}

#[test]
fn intersect_geodetic() {
}

#[test]
fn bearing_construction_is_identity_in_range() {
    assert_eq!(Bearing::new(R(0.0)).unwrap().bearing(), R(0.0));
    assert_eq!(Bearing::new(R(123.4)).unwrap().bearing(), R(123.4));
    assert_eq!(Bearing::new(R(360.0)).unwrap().bearing(), R(360.0));
}

#[test]
fn bearing_construction_rejects_out_of_range() {
    assert!(matches!(Bearing::new(R(360.0001)), Err(SetBearingError::OutOfRange)));
    assert!(matches!(Bearing::new(R(-0.1)), Err(SetBearingError::OutOfRange)));
}

#[test]
fn bearing_update_keeps_prior_value_on_rejection() {
    let mut b = Bearing::new(R(10.0)).unwrap();

    assert!(b.update(R(350.0)).is_ok());
    assert_eq!(b.bearing(), R(350.0));

    assert!(matches!(b.update(R(-5.0)), Err(SetBearingError::OutOfRange)));
    assert_eq!(b.bearing(), R(350.0));
}

#[test]
fn bearing_radians_of_half_turn() {
    let b = Bearing::new(R(180.0)).unwrap();

    assert!(approx(b.radians().0, std::f64::consts::PI, 1e-12));
    assert!(approx(b.to_angle().radians().0, std::f64::consts::PI, 1e-12));
}

#[test]
fn coordinate_construction_validates_intervals() {
    assert!(GeodeticCoordinate2D::new(Angle::from_degrees(R(90.0)), Angle::from_degrees(R(0.0)))
        .is_ok());
    assert!(GeodeticCoordinate2D::new(Angle::from_degrees(R(90.5)), Angle::from_degrees(R(0.0)))
        .is_err());
    assert!(GeodeticCoordinate2D::new(Angle::from_degrees(R(-90.0)), Angle::from_degrees(R(0.0)))
        .is_err());
    assert!(GeodeticCoordinate2D::new(Angle::from_degrees(R(0.0)), Angle::from_degrees(R(180.0)))
        .is_ok());
    assert!(GeodeticCoordinate2D::new(Angle::from_degrees(R(0.0)), Angle::from_degrees(R(-180.0)))
        .is_err());
    assert!(GeodeticCoordinate2D::new(Angle::from_degrees(R(0.0)), Angle::from_degrees(R(180.5)))
        .is_err());
}

#[test]
fn nvector_round_trip_ordinary_points() {
    for &(lat, lon) in &[(10.0, 20.0), (-45.0, 60.0), (33.3, -120.7), (0.0, 0.0)] {
        let c = coord(lat, lon);
        let back = GeodeticCoordinate2D::from_nvector(&to_nvector(&c)).unwrap();
        assert!(approx(back.latitude().degrees().0, lat, 1e-9));
        assert!(approx(back.longitude().degrees().0, lon, 1e-9));
    }
}

#[test]
fn nvector_round_trip_north_pole() {
    let c = coord(90.0, 0.0);
    let back = GeodeticCoordinate2D::from_nvector(&to_nvector(&c)).unwrap();
    assert!(approx(back.latitude().degrees().0, 90.0, 1e-6));
    assert!(approx(back.longitude().degrees().0, 0.0, 1e-6));
}

#[test]
fn nvector_round_trip_across_antimeridian() {
    let c = coord(10.0, 180.0);
    let back = GeodeticCoordinate2D::from_nvector(&to_nvector(&c)).unwrap();
    assert!(approx(back.latitude().degrees().0, 10.0, 1e-9));
    assert!(approx(back.longitude().degrees().0, 180.0, 1e-9));

    let west = coord(-20.0, -179.5);
    let back_west = GeodeticCoordinate2D::from_nvector(&to_nvector(&west)).unwrap();
    assert!(approx(back_west.latitude().degrees().0, -20.0, 1e-9));
    assert!(approx(back_west.longitude().degrees().0, -179.5, 1e-9));
}

#[test]
fn quarter_circle_distance_along_equator() {
    let line = Line::new(coord(0.0, 0.0), coord(0.0, 90.0));

    let expected = 6371.0 * std::f64::consts::FRAC_PI_2;
    assert!(approx(line.length().0, expected, 1e-6));
}

#[test]
fn length_is_symmetric() {
    let a = coord(10.0, 20.0);
    let b = coord(30.0, 40.0);

    let d_ab = Line::new(a, b).length().0;
    let d_ba = Line::new(b, a).length().0;
    assert_eq!(d_ab, d_ba);
}

#[test]
fn initial_bearings_differ_between_endpoints() {
    let a = coord(10.0, 20.0);
    let b = coord(30.0, 40.0);

    let b_ab = Line::new(a, b).bearing().unwrap().bearing().0;
    let b_ba = Line::new(b, a).bearing().unwrap().bearing().0;
    assert!(!approx(b_ab, b_ba, 1e-6));
    assert!(!approx((b_ab - b_ba).abs(), 180.0, 1e-6));
}

#[test]
fn bearing_due_east_along_equator() {
    let line = Line::new(coord(0.0, 0.0), coord(0.0, 90.0));

    assert!(approx(line.bearing().unwrap().bearing().0, 90.0, 1e-6));
}

#[test]
fn bearing_of_identical_points_is_degenerate() {
    let line = Line::new(coord(10.0, 20.0), coord(10.0, 20.0));

    assert!(matches!(line.bearing(), Err(GreatCircleError::DegenerateGreatCircle)));
}

#[test]
fn bisection_halves_the_distance() {
    let a = coord(0.0, 0.0);
    let b = coord(0.0, 90.0);
    let line = Line::new(a, b);

    let mid = line.bisect().unwrap();
    assert!(approx(mid.latitude().degrees().0, 0.0, 1e-6));
    assert!(approx(mid.longitude().degrees().0, 45.0, 1e-6));

    let total = line.length().0;
    let first = Line::new(a, mid).length().0;
    let second = Line::new(mid, b).length().0;
    assert!(approx(first, total / 2.0, 1e-6));
    assert!(approx(second, total / 2.0, 1e-6));
}

#[test]
fn projection_from_start_reaches_destination() {
    let start = coord(0.0, 0.0);

    let east = start
        .new_from(
            Bearing::new(R(90.0)).unwrap().to_angle(),
            Distance::from_kilometers(R(6371.0 * std::f64::consts::FRAC_PI_2)),
        )
        .unwrap();
    assert!(approx(east.latitude().degrees().0, 0.0, 1e-6));
    assert!(approx(east.longitude().degrees().0, 90.0, 1e-6));
}

#[test]
fn crossing_segments_meet_once() {
    let equator = Line::new(coord(0.0, -10.0), coord(0.0, 10.0));
    let meridian = Line::new(coord(-10.0, 0.0), coord(10.0, 0.0));

    let points = equator.intersects(meridian);
    assert_eq!(points.len(), 1);
    assert!(approx(points[0].latitude().degrees().0, 0.0, 1e-6));
    assert!(approx(points[0].longitude().degrees().0, 0.0, 1e-6));
}

#[test]
fn distant_segments_do_not_meet() {
    let equator = Line::new(coord(0.0, 20.0), coord(0.0, 40.0));
    let meridian = Line::new(coord(-10.0, 0.0), coord(10.0, 0.0));

    let points = equator.intersects(meridian);
    assert_eq!(points.len(), 0);
}

#[test]
fn collinear_segments_yield_nothing() {
    let a = Line::new(coord(0.0, 0.0), coord(0.0, 30.0));
    let b = Line::new(coord(0.0, 10.0), coord(0.0, 40.0));

    assert!(matches!(a.intersection_points(&b), Err(GreatCircleError::DegenerateGreatCircle)));
    assert_eq!(a.intersects(b).len(), 0);
}

#[test]
fn great_circle_of_equator_points_at_pole() {
    let line = Line::new(coord(0.0, 0.0), coord(0.0, 90.0));

    let normal = line.great_circle();
    let d = *normal.data();
    assert!(approx(d[0].0, 0.0, 1e-12));
    assert!(approx(d[1].0, 0.0, 1e-12));
    assert!(approx(d[2].0, 1.0, 1e-12));
}

#[test]
fn coordinate_with_height_keeps_position() {
    let c3 = coord(10.0, 20.0).at_ellipsoidal_height(Distance::from_meters(R(1500.0)));

    assert!(approx(c3.latitude().degrees().0, 10.0, 1e-9));
    assert!(approx(c3.longitude().degrees().0, 20.0, 1e-9));
    assert!(approx(c3.ellipsoidal_height().kilometers().0, 1.5, 1e-12));
}

#[test]
fn magnitude_is_nonnegative_and_unit_vectors_have_unit_length() {
    let v = MathVec::new([R(1.0), R(2.0), R(3.0)]);

    assert!(v.magnitude().0 >= 0.0);
    let unit = MathVec::new(v.unit_vector());
    assert!(approx(unit.magnitude().0, 1.0, 1e-12));
}

#[test]
fn magnitude_of_three_four_is_five() {
    let v = MathVec::new([R(3.0), R(4.0)]);

    assert_eq!(v.magnitude(), R(5.0));
}

#[test]
fn sqrt_of_square() {
    assert_eq!(sqrt(R(25.0)), R(5.0));
}

#[test]
fn degree_radian_conversions_invert() {
    assert!(approx(deg2rad(R(180.0)).0, std::f64::consts::PI, 1e-12));
    assert!(approx(rad2deg(R(std::f64::consts::FRAC_PI_2)).0, 90.0, 1e-12));
    assert!(approx(rad2deg(deg2rad(R(73.25))).0, 73.25, 1e-9));
}

#[test]
fn projection_to_south_pole_is_rejected() {
    let start = coord(0.0, 0.0);

    let r = start.new_from(
        Bearing::new(R(180.0)).unwrap().to_angle(),
        Distance::from_kilometers(R(6371.0 * std::f64::consts::FRAC_PI_2)),
    );
    match r {
        Err(e) => assert_eq!(e, CreateGeodeticCoordinate2DError::InvalidLatitude),
        Ok(c) => {
            let lat = c.latitude().degrees().0;
            assert!(-90.0 < lat && lat < -89.999);
        }
    }
}

#[test]
fn polar_to_cartesian_quarter_turn() {
    let test_case = PolarCoordinates { magnitude: R(1.5), amplitude: R(0.5 * std::f64::consts::PI) };

    let transposed: MathVec<R, 2> = test_case.to_cartesian();
    assert!(approx(transposed.data()[0].0, 0.0, 1e-12));
    assert!(approx(transposed.data()[1].0, 1.5, 1e-12));
}

#[test]
fn velocity_from_polar_at_zero_amplitude_is_the_components() {
    let velocity = PolarVelocity2D { u_r: R(3.0), u_theta: R(4.0) };
    let point = PolarCoordinates { magnitude: R(2.0), amplitude: R(0.0) };

    let cartesian = CartesianVelocity2D::from_polar(velocity, point);
    assert!(approx(cartesian.components().data()[0].0, 3.0, 1e-12));
    assert!(approx(cartesian.components().data()[1].0, 4.0, 1e-12));
}

#[test]
fn velocity_from_polar_quarter_turn_swaps_and_scales() {
    let velocity = PolarVelocity2D { u_r: R(3.0), u_theta: R(4.0) };
    let point = PolarCoordinates { magnitude: R(2.0), amplitude: R(0.5 * std::f64::consts::PI) };

    let cartesian = CartesianVelocity2D::from_polar(velocity, point);
    assert!(approx(cartesian.components().data()[0].0, -8.0, 1e-12));
    assert!(approx(cartesian.components().data()[1].0, -6.0, 1e-12));
}

#[test]
fn polar_test_coodinate_conversion() {
    let test_case = PolarCoordinates {
        magnitude: R(1.5),
        amplitude: R(0.5 * std::f64::consts::PI),
    };
    let transposed: MathVec<R, 2> = test_case.to_cartesian();
    let correct = MathVec::new([R(0.0), R(1.5)]);

    assert!(approx(transposed.data()[0].0, correct.data()[0].0, f64::from(f32::EPSILON)));
    assert!(approx(transposed.data()[1].0, correct.data()[1].0, f64::from(f32::EPSILON)));
}

#[test]
fn line_over_coordinates_with_height() {
    let a = coord(0.0, 0.0).at_ellipsoidal_height(Distance::from_kilometers(R(1.0)));
    let b = coord(0.0, 90.0).at_ellipsoidal_height(Distance::from_kilometers(R(2.0)));

    let line = Line::new(a, b);
    assert!(approx(line.length().0, 6371.0 * std::f64::consts::FRAC_PI_2, 1e-6));
}

#[test]
fn polar_from_cartesian_keeps_the_quadrant() {
    let p = PolarCoordinates::from_cartesian(&MathVec::new([R(1.0), R(1.0)]));
    assert!(approx(p.magnitude.0, std::f64::consts::SQRT_2, 1e-12));
    assert!(approx(p.amplitude.0, std::f64::consts::FRAC_PI_4, 1e-12));

    let west = PolarCoordinates::from_cartesian(&MathVec::new([R(-1.0), R(0.0)]));
    assert!(approx(west.amplitude.0, std::f64::consts::PI, 1e-12));
}
