//! Geodetic positions and compass bearings, and their conversions to and from
//! the N-vector representation: the unit 3-vector normal to the sphere at a
//! position, which is the common currency of the great-circle engine.
use vstd::prelude::*;

use crate::traits::number::Zero;
use crate::traits::scalar::Scalar;
use crate::traits::sqrt::Sqrt;
use crate::traits::trig::Trig;
use crate::units::deg_to_rad_spec;
use crate::units::Angle;
use crate::units::Distance;
use crate::vector::add_vec_spec;
use crate::vector::cross_spec;
use crate::vector::magnitude_spec;
use crate::vector::scale_div_spec;
use crate::vector::scale_mul_spec;
use crate::vector::MathVec;
use crate::vector::MathVecTrait;

verus! {

/// Earth's mean radius in kilometers: the sphere the great-circle engine
/// works on.
pub const EARTH_RADIUS: u16 = 6371;

/// An N-vector: a 3-vector from the sphere's center. When it stands for a
/// position it is kept at unit length by construction; a great-circle plane
/// normal, the cross product of two positions, may be shorter.
pub type NVector<T> = MathVec<T, 3>;

/// Whether a degree value is an admissible compass bearing: within 0 to 360,
/// ends included.
pub open spec fn bearing_in_range_spec<T: Scalar>(b: T) -> bool {
    T::zero_spec().le_spec(b) && b.le_spec(T::from_u16_spec(360))
}

/// Error of giving a bearing a degree value outside its range.
#[derive(Debug, Clone, Copy, PartialEq, Eq)]
pub enum SetBearingError {
    /// The value is not within 0 to 360 degrees.
    OutOfRange,
}

/// A validated compass direction: degrees clockwise from north, within 0 to
/// 360. Its view is the degree value.
#[derive(Clone, Copy, PartialEq, Debug)]
pub struct Bearing<T> {
    bearing: T,
}

impl<T> View for Bearing<T> {
    type V = T;

    closed spec fn view(&self) -> T {
        self.bearing
    }
}

/// What constructing a bearing from a degree value yields: the value itself
/// when it is in range, and nothing otherwise.
pub closed spec fn bearing_new_spec<T: Scalar>(bearing: T) -> Option<Bearing<T>> {
    if bearing_in_range_spec(bearing) {
        Some(Bearing { bearing })
    } else {
        None
    }
}

impl<T: Scalar> Bearing<T> {
    /// Validates a degree value and wraps it as a bearing; a value outside
    /// 0 to 360 is rejected.
    pub fn new(bearing: T) -> (r: Result<Self, SetBearingError>)
        ensures
            match r {
                Ok(b) => bearing_new_spec(bearing) == Some(b) && bearing_in_range_spec(bearing)
                    && b@ == bearing,
                Err(e) => bearing_new_spec::<T>(bearing) is None && !bearing_in_range_spec(bearing)
                    && e == SetBearingError::OutOfRange,
            },
    {
        if !(T::zero().le(bearing) && bearing.le(T::from_u16(360))) {
            return Err(SetBearingError::OutOfRange);
        }
        Ok(Self { bearing })
    }

    /// Re-validates and replaces the degree value; on rejection the prior
    /// value stays.
    pub fn update(&mut self, bearing: T) -> (r: Result<(), SetBearingError>)
        ensures
            match r {
                Ok(()) => bearing_in_range_spec(bearing) && final(self)@ == bearing,
                Err(e) => !bearing_in_range_spec(bearing) && final(self)@ == old(self)@ && e
                    == SetBearingError::OutOfRange,
            },
    {
        if !(T::zero().le(bearing) && bearing.le(T::from_u16(360))) {
            return Err(SetBearingError::OutOfRange);
        }
        self.bearing = bearing;
        Ok(())
    }

    /// The degree value.
    pub fn bearing(&self) -> (r: T)
        ensures
            r == self@,
    {
        self.bearing
    }
}

/// Law: construction is the identity on admissible degree values. A bearing
/// accepted from a value within 0 to 360 reports exactly that value, and
/// `new` accepts exactly those values.
pub proof fn lemma_bearing_new_idempotent<T: Scalar>(x: T)
    ensures
        bearing_in_range_spec(x) <==> bearing_new_spec(x) is Some,
        bearing_new_spec(x) matches Some(b) ==> b@ == x,
{
}

impl<T: Trig> Bearing<T> {
    /// The bearing in radians.
    pub fn radians(&self) -> (r: T)
        ensures
            r == self@.div_spec(T::from_u16_spec(180)).mul_spec(T::pi_spec()),
    {
        self.bearing.div(T::from_u16(180)).mul(T::pi())
    }

    /// The bearing as an angle quantity.
    pub fn to_angle(&self) -> (r: Angle<T>)
        ensures
            r@ == self@.div_spec(T::from_u16_spec(180)).mul_spec(T::pi_spec()),
    {
        Angle::from_radians(self.radians())
    }
}

/// Whether a radian value is an admissible latitude: more than 90 degrees
/// south of the equator, or anything above 90 degrees north, is rejected, so
/// the admissible interval is half-open with only the north pole included.
pub open spec fn valid_latitude_spec<T: Trig>(lat: T) -> bool {
    !deg_to_rad_spec(T::from_u16_spec(90)).lt_spec(lat) && !lat.le_spec(
        deg_to_rad_spec(T::from_u16_spec(90)).neg_spec(),
    )
}

/// Whether a radian value is an admissible longitude: the half-open interval
/// from 180 degrees west, excluded, to 180 degrees east, included.
pub open spec fn valid_longitude_spec<T: Trig>(lon: T) -> bool {
    !deg_to_rad_spec(T::from_u16_spec(180)).lt_spec(lon) && !lon.le_spec(
        deg_to_rad_spec(T::from_u16_spec(180)).neg_spec(),
    )
}

/// Errors of constructing a geodetic coordinate.
#[derive(Debug, Clone, Copy, PartialEq, Eq)]
pub enum CreateGeodeticCoordinate2DError {
    /// The latitude is outside the half-open interval from 90 degrees south,
    /// excluded, to 90 degrees north, included.
    InvalidLatitude,
    /// The longitude is outside the half-open interval from 180 degrees west,
    /// excluded, to 180 degrees east, included.
    InvalidLongitude,
}

/// Read access to a position on the reference ellipsoid, in latitude and
/// longitude. The great-circle engine is written against this capability, so
/// any coordinate representation that converts to latitude and longitude can
/// use it.
pub trait GeodeticCoordinate2DTrait<T>: Sized {
    /// The latitude in radians, as contracts see it.
    spec fn latitude_spec(&self) -> T;

    /// The longitude in radians, as contracts see it.
    spec fn longitude_spec(&self) -> T;

    /// The latitude.
    fn latitude(&self) -> (r: &Angle<T>)
        ensures
            r@ == self.latitude_spec(),
    ;

    /// The longitude.
    fn longitude(&self) -> (r: &Angle<T>)
        ensures
            r@ == self.longitude_spec(),
    ;
}

/// A position on the reference ellipsoid: a validated latitude and longitude,
/// with no height.
#[derive(Clone, Copy, PartialEq, Debug)]
pub struct GeodeticCoordinate2D<T> {
    latitude: Angle<T>,
    longitude: Angle<T>,
}

impl<T: Scalar> GeodeticCoordinate2DTrait<T> for GeodeticCoordinate2D<T> {
    closed spec fn latitude_spec(&self) -> T {
        self.latitude@
    }

    closed spec fn longitude_spec(&self) -> T {
        self.longitude@
    }

    fn latitude(&self) -> (r: &Angle<T>) {
        &self.latitude
    }

    fn longitude(&self) -> (r: &Angle<T>) {
        &self.longitude
    }
}

/// The coordinate value holding the given latitude and longitude in radians,
/// as contracts see it.
pub closed spec fn coordinate_spec<T>(lat: T, lon: T) -> GeodeticCoordinate2D<T> {
    GeodeticCoordinate2D {
        latitude: crate::units::angle_from_radians_spec(lat),
        longitude: crate::units::angle_from_radians_spec(lon),
    }
}

/// A coordinate value built from radian values reports exactly those values.
pub broadcast proof fn lemma_coordinate_spec<T: Scalar>(lat: T, lon: T)
    ensures
        (#[trigger] coordinate_spec(lat, lon)).latitude_spec() == lat,
        coordinate_spec(lat, lon).longitude_spec() == lon,
{
    crate::units::lemma_angle_from_radians(lat);
    crate::units::lemma_angle_from_radians(lon);
}

/// The N-vector of a position given by latitude and longitude in radians:
/// a unit vector for any admissible position.
pub open spec fn nvector_spec<T: Trig>(lat: T, lon: T) -> Seq<T> {
    seq![
        lat.cos_spec().mul_spec(lon.cos_spec()),
        lat.cos_spec().mul_spec(lon.sin_spec()),
        lat.sin_spec(),
    ]
}

/// The latitude in radians that an N-vector points at: the four-quadrant arc
/// tangent of the vertical component against the horizontal magnitude, which
/// is well-defined at the poles too.
pub open spec fn latitude_of_nvector_spec<T: Trig + Sqrt>(v: Seq<T>) -> T {
    v[2].atan2_spec(v[0].mul_spec(v[0]).add_spec(v[1].mul_spec(v[1])).sqrt_spec())
}

/// The longitude in radians that an N-vector points at: the four-quadrant arc
/// tangent of the two horizontal components, which keeps its sign in every
/// quadrant and is defined on the whole meridian where the first component is
/// zero.
pub open spec fn longitude_of_nvector_spec<T: Trig>(v: Seq<T>) -> T {
    v[1].atan2_spec(v[0])
}

/// Converts a position to its N-vector.
pub fn to_nvector<T: Trig, G: GeodeticCoordinate2DTrait<T>>(coordinate: &G) -> (r: NVector<T>)
    ensures
        r@ == nvector_spec(coordinate.latitude_spec(), coordinate.longitude_spec()),
{
    let lat = coordinate.latitude().radians();
    let lon = coordinate.longitude().radians();
    let r = MathVec::new([lat.cos().mul(lon.cos()), lat.cos().mul(lon.sin()), lat.sin()]);
    assert(r@ =~= nvector_spec(coordinate.latitude_spec(), coordinate.longitude_spec()));
    r
}

/// The N-vector of the destination reached from the position at `lat`, `lon`
/// (radians) by travelling on the initial bearing `bearing_rad` (radians) for
/// `distance_km` kilometers: the position vector turned by the angular
/// distance within the plane spanned by the north and east tangent directions
/// at the start.
pub open spec fn destination_nvector_spec<T: Trig + Sqrt>(
    lat: T,
    lon: T,
    bearing_rad: T,
    distance_km: T,
) -> Seq<T> {
    let n1 = nvector_spec(lat, lon);
    let pole = seq![T::zero_spec(), T::zero_spec(), T::from_u16_spec(1)];
    let angular = distance_km.div_spec(T::from_u16_spec(EARTH_RADIUS as u16));
    let de = scale_div_spec(cross_spec(pole, n1), magnitude_spec(cross_spec(pole, n1)));
    let dn = cross_spec(n1, de);
    let de_sin = scale_mul_spec(de, bearing_rad.sin_spec());
    let dn_cos = scale_mul_spec(dn, bearing_rad.cos_spec());
    let d = add_vec_spec(dn_cos, de_sin);
    let x = scale_mul_spec(n1, angular.cos_spec());
    let y = scale_mul_spec(d, angular.sin_spec());
    add_vec_spec(x, y)
}

impl<T: Trig> GeodeticCoordinate2D<T> {
    /// Validates a latitude and longitude and wraps them as a position; a
    /// latitude outside its half-open interval is rejected first, then a
    /// longitude outside its own.
    pub fn new(latitude: Angle<T>, longitude: Angle<T>) -> (r: Result<
        Self,
        CreateGeodeticCoordinate2DError,
    >)
        ensures
            match r {
                Ok(c) => valid_latitude_spec(latitude@) && valid_longitude_spec(longitude@)
                    && c.latitude_spec() == latitude@ && c.longitude_spec() == longitude@ && c
                    == coordinate_spec(latitude@, longitude@),
                Err(e) => (e == CreateGeodeticCoordinate2DError::InvalidLatitude
                    && !valid_latitude_spec(latitude@)) || (e
                    == CreateGeodeticCoordinate2DError::InvalidLongitude && valid_latitude_spec(
                    latitude@,
                ) && !valid_longitude_spec(longitude@)),
            },
    {
        proof {
            crate::units::lemma_angle_determined(latitude);
            crate::units::lemma_angle_determined(longitude);
        }
        let lat_bound = Angle::from_degrees(T::from_u16(90));
        if lat_bound.radians().lt(latitude.radians()) || latitude.radians().le(
            lat_bound.radians().neg(),
        ) {
            return Err(CreateGeodeticCoordinate2DError::InvalidLatitude);
        }
        let lon_bound = Angle::from_degrees(T::from_u16(180));
        if lon_bound.radians().lt(longitude.radians()) || longitude.radians().le(
            lon_bound.radians().neg(),
        ) {
            return Err(CreateGeodeticCoordinate2DError::InvalidLongitude);
        }
        Ok(Self { latitude, longitude })
    }

    /// Lifts the position to three dimensions at the given ellipsoidal
    /// height.
    pub fn at_ellipsoidal_height(self, ellipsoidal_height: Distance<T>) -> (r: GeodeticCoordinate3D<
        T,
    >)
        ensures
            r.latitude_spec() == self.latitude_spec(),
            r.longitude_spec() == self.longitude_spec(),
            r.ellipsoidal_height_spec() == ellipsoidal_height@,
    {
        GeodeticCoordinate3D { position: self, ellipsoidal_height }
    }
}

impl<T: Trig + Sqrt> GeodeticCoordinate2D<T> {
    /// Converts an N-vector back to a position, by four-quadrant arc
    /// tangents, and validates the result; a direction whose latitude or
    /// longitude falls outside its half-open interval is rejected.
    pub fn from_nvector(value: &NVector<T>) -> (r: Result<Self, CreateGeodeticCoordinate2DError>)
        ensures
            match r {
                Ok(c) => valid_latitude_spec(latitude_of_nvector_spec(value@))
                    && valid_longitude_spec(longitude_of_nvector_spec(value@)) && c.latitude_spec()
                    == latitude_of_nvector_spec(value@) && c.longitude_spec()
                    == longitude_of_nvector_spec(value@) && c == coordinate_spec(
                    latitude_of_nvector_spec(value@),
                    longitude_of_nvector_spec(value@),
                ),
                Err(e) => (e == CreateGeodeticCoordinate2DError::InvalidLatitude
                    && !valid_latitude_spec(latitude_of_nvector_spec(value@))) || (e
                    == CreateGeodeticCoordinate2DError::InvalidLongitude && valid_latitude_spec(
                    latitude_of_nvector_spec(value@),
                ) && !valid_longitude_spec(longitude_of_nvector_spec(value@))),
            },
    {
        let d = value.data();
        let horizontal = d[0].mul(d[0]).add(d[1].mul(d[1])).sqrt();
        let latitude = Angle::from_radians(d[2].atan2(horizontal));
        let longitude = Angle::from_radians(d[1].atan2(d[0]));
        Self::new(latitude, longitude)
    }

    /// The position reached by travelling from `self` on the initial bearing
    /// `angle` for `distance`: the destination N-vector converted back to a
    /// coordinate, which rejects a destination that falls outside the
    /// admissible intervals.
    pub fn new_from(self, angle: Angle<T>, distance: Distance<T>) -> (r: Result<
        Self,
        CreateGeodeticCoordinate2DError,
    >)
        ensures
            ({
                let dest = destination_nvector_spec(
                    self.latitude_spec(),
                    self.longitude_spec(),
                    angle@,
                    distance@,
                );
                match r {
                    Ok(c) => valid_latitude_spec(latitude_of_nvector_spec(dest))
                        && valid_longitude_spec(longitude_of_nvector_spec(dest))
                        && c.latitude_spec() == latitude_of_nvector_spec(dest)
                        && c.longitude_spec() == longitude_of_nvector_spec(dest) && c
                        == coordinate_spec(
                        latitude_of_nvector_spec(dest),
                        longitude_of_nvector_spec(dest),
                    ),
                    Err(e) => (e == CreateGeodeticCoordinate2DError::InvalidLatitude
                        && !valid_latitude_spec(latitude_of_nvector_spec(dest))) || (e
                        == CreateGeodeticCoordinate2DError::InvalidLongitude
                        && valid_latitude_spec(latitude_of_nvector_spec(dest))
                        && !valid_longitude_spec(longitude_of_nvector_spec(dest))),
                }
            }),
    {
        let n1: NVector<T> = to_nvector(&self);
        let angular = distance.kilometers().div(T::from_u16(EARTH_RADIUS));

        let n: NVector<T> = MathVec::new([T::zero(), T::zero(), T::from_u16(1)]);

        let de: NVector<T> = MathVec::new(n.cross_product(n1).unit_vector());
        let dn: NVector<T> = n1.cross_product(de);

        let bearing_rad = angle.radians();
        let de_sin = de.scale_mul(bearing_rad.sin());
        let dn_cos = dn.scale_mul(bearing_rad.cos());

        let d = dn_cos.add(de_sin);

        let x = n1.scale_mul(angular.cos());
        let y = d.scale_mul(angular.sin());

        let n2: NVector<T> = x.add(y);

        proof {
            assert(n@ =~= seq![T::zero_spec(), T::zero_spec(), T::from_u16_spec(1)]);
            assert(n2@ =~= destination_nvector_spec(
                self.latitude_spec(),
                self.longitude_spec(),
                angle@,
                distance@,
            ));
        }
        Self::from_nvector(&n2)
    }
}

/// Read access to the ellipsoidal height of a three-dimensional position.
pub trait GeodeticCoordinate3DTrait<T> {
    /// The height in kilometers, as contracts see it.
    spec fn ellipsoidal_height_spec(&self) -> T;

    /// The ellipsoidal height.
    fn ellipsoidal_height(&self) -> (r: &Distance<T>)
        ensures
            r@ == self.ellipsoidal_height_spec(),
    ;
}

/// A position on the reference ellipsoid together with an ellipsoidal
/// height; immutable once constructed.
#[derive(Clone, Copy, PartialEq, Debug)]
pub struct GeodeticCoordinate3D<T> {
    position: GeodeticCoordinate2D<T>,
    ellipsoidal_height: Distance<T>,
}

impl<T: Trig> GeodeticCoordinate3D<T> {
    /// Validates a latitude and longitude as `GeodeticCoordinate2D::new`
    /// does, and attaches the height.
    pub fn new(latitude: Angle<T>, longitude: Angle<T>, ellipsoidal_height: Distance<T>) -> (r:
        Result<Self, CreateGeodeticCoordinate2DError>)
        ensures
            match r {
                Ok(c) => valid_latitude_spec(latitude@) && valid_longitude_spec(longitude@)
                    && c.latitude_spec() == latitude@ && c.longitude_spec() == longitude@
                    && c.ellipsoidal_height_spec() == ellipsoidal_height@,
                Err(e) => (e == CreateGeodeticCoordinate2DError::InvalidLatitude
                    && !valid_latitude_spec(latitude@)) || (e
                    == CreateGeodeticCoordinate2DError::InvalidLongitude && valid_latitude_spec(
                    latitude@,
                ) && !valid_longitude_spec(longitude@)),
            },
    {
        match GeodeticCoordinate2D::new(latitude, longitude) {
            Ok(position) => Ok(Self { position, ellipsoidal_height }),
            Err(e) => Err(e),
        }
    }
}

impl<T: Scalar> GeodeticCoordinate2DTrait<T> for GeodeticCoordinate3D<T> {
    closed spec fn latitude_spec(&self) -> T {
        self.position.latitude_spec()
    }

    closed spec fn longitude_spec(&self) -> T {
        self.position.longitude_spec()
    }

    fn latitude(&self) -> (r: &Angle<T>) {
        self.position.latitude()
    }

    fn longitude(&self) -> (r: &Angle<T>) {
        self.position.longitude()
    }
}

impl<T: Scalar> GeodeticCoordinate3DTrait<T> for GeodeticCoordinate3D<T> {
    closed spec fn ellipsoidal_height_spec(&self) -> T {
        self.ellipsoidal_height@
    }

    fn ellipsoidal_height(&self) -> (r: &Distance<T>) {
        &self.ellipsoidal_height
    }
}

} // verus!
