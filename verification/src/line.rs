//! Great-circle segments: the shorter arc between two positions, and the
//! questions it answers — plane normal, initial bearing, arc length,
//! bisection, and intersection with another segment.
use vstd::prelude::*;

use crate::geodetic::bearing_in_range_spec;
use crate::geodetic::coordinate_spec;
use crate::geodetic::destination_nvector_spec;
use crate::geodetic::latitude_of_nvector_spec;
use crate::geodetic::longitude_of_nvector_spec;
use crate::geodetic::nvector_spec;
use crate::geodetic::to_nvector;
use crate::geodetic::valid_latitude_spec;
use crate::geodetic::valid_longitude_spec;
use crate::geodetic::Bearing;
use crate::geodetic::GeodeticCoordinate2D;
use crate::geodetic::GeodeticCoordinate2DTrait;
use crate::geodetic::NVector;
use crate::geodetic::SetBearingError;
use crate::geodetic::EARTH_RADIUS;
use crate::traits::number::Zero;
use crate::traits::scalar::Scalar;
use crate::traits::sqrt::Sqrt;
use crate::traits::trig::Trig;
use crate::units::Distance;
use crate::vector::cross_spec;
use crate::vector::cross_products_real;
use crate::vector::dot_spec;
use crate::vector::lemma_dot_squares_equal;
use crate::vector::lemma_dot_symmetric;
use crate::vector::magnitude_spec;
use crate::vector::MathVec;
use crate::vector::MathVecTrait;

verus! {

/// A great-circle segment: the shorter arc between the ordered pair of
/// positions `x0` and `x1`.
#[derive(Clone, Copy, PartialEq, Debug)]
pub struct Line<Coordinate> {
    x0: Coordinate,
    x1: Coordinate,
}

impl<Coordinate> Line<Coordinate> {
    /// The starting position, as contracts see it.
    pub closed spec fn x0_spec(&self) -> Coordinate {
        self.x0
    }

    /// The ending position, as contracts see it.
    pub closed spec fn x1_spec(&self) -> Coordinate {
        self.x1
    }

    /// The segment from `x0` toward `x1`.
    pub fn new(x0: Coordinate, x1: Coordinate) -> (r: Self)
        ensures
            r.x0_spec() == x0,
            r.x1_spec() == x1,
    {
        Self { x0, x1 }
    }

    /// The starting position.
    pub fn x0(&self) -> (r: &Coordinate)
        ensures
            *r == self.x0_spec(),
    {
        &self.x0
    }

    /// The ending position.
    pub fn x1(&self) -> (r: &Coordinate)
        ensures
            *r == self.x1_spec(),
    {
        &self.x1
    }
}

/// Intersection of a shape with a great-circle segment, yielding the
/// positions common to both.
pub trait Intersect<Coordinate> {
    /// The intersection points, as contracts see them.
    spec fn intersections_spec(&self, line: Line<Coordinate>) -> Seq<Coordinate>;

    /// The positions where `self` and `line` meet.
    fn intersects(&self, line: Line<Coordinate>) -> (r: Vec<Coordinate>)
        ensures
            r@ == self.intersections_spec(line),
    ;
}

/// The capability of measuring a length.
pub trait Length<T> {
    /// The length, as contracts see it.
    spec fn length_model(&self) -> T;

    /// The length in kilometers.
    fn length(&self) -> (r: T)
        ensures
            r == self.length_model(),
    ;
}

/// The N-vector of the north pole.
pub open spec fn north_pole_spec<T: Scalar>() -> Seq<T> {
    seq![T::zero_spec(), T::zero_spec(), T::from_u16_spec(1)]
}

/// The great-circle arc length in kilometers between the endpoints of two
/// N-vectors: the angular separation, by the four-quadrant arc tangent of the
/// cross product's magnitude against the dot product — which stays exact near
/// antipodal points — scaled by Earth's radius.
pub open spec fn arc_length_spec<T: Trig + Sqrt>(a: Seq<T>, b: Seq<T>) -> T {
    T::from_u16_spec(EARTH_RADIUS).mul_spec(
        magnitude_spec(cross_spec(a, b)).atan2_spec(dot_spec(a, b)),
    )
}

/// The arc length between two positions.
pub open spec fn line_length_spec<T: Trig + Sqrt>(
    c0: GeodeticCoordinate2D<T>,
    c1: GeodeticCoordinate2D<T>,
) -> T {
    arc_length_spec(
        nvector_spec(c0.latitude_spec(), c0.longitude_spec()),
        nvector_spec(c1.latitude_spec(), c1.longitude_spec()),
    )
}

/// The plane normal of the great circle through two positions.
pub open spec fn great_circle_spec<T: Trig>(
    c0: GeodeticCoordinate2D<T>,
    c1: GeodeticCoordinate2D<T>,
) -> Seq<T> {
    cross_spec(
        nvector_spec(c0.latitude_spec(), c0.longitude_spec()),
        nvector_spec(c1.latitude_spec(), c1.longitude_spec()),
    )
}

/// Whether the bearing computation at `c0` toward `c1` is degenerate: the two
/// positions, or `c0` and the north pole, are identical or antipodal, so one
/// of the great-circle normals is the zero vector.
pub open spec fn bearing_degenerate_spec<T: Trig + Sqrt>(
    c0: GeodeticCoordinate2D<T>,
    c1: GeodeticCoordinate2D<T>,
) -> bool {
    let n0 = nvector_spec(c0.latitude_spec(), c0.longitude_spec());
    let n1 = nvector_spec(c1.latitude_spec(), c1.longitude_spec());
    magnitude_spec(cross_spec(n0, n1)).eqv(T::zero_spec()) || magnitude_spec(
        cross_spec(n0, north_pole_spec::<T>()),
    ).eqv(T::zero_spec())
}

/// The initial bearing at `c0` toward `c1`, in degrees, before normalization:
/// the four-quadrant arc tangent of the signed sine component against the
/// cosine component of the angle between the segment's great circle and the
/// meridian through `c0`.
pub open spec fn bearing_raw_deg_spec<T: Trig + Sqrt>(
    c0: GeodeticCoordinate2D<T>,
    c1: GeodeticCoordinate2D<T>,
) -> T {
    let n0 = nvector_spec(c0.latitude_spec(), c0.longitude_spec());
    let n1 = nvector_spec(c1.latitude_spec(), c1.longitude_spec());
    let gc1 = cross_spec(n0, n1);
    let gc2 = cross_spec(n0, north_pole_spec::<T>());
    let cr = cross_spec(gc1, gc2);
    let sin_component = if T::zero_spec().le_spec(dot_spec(cr, n1)) {
        magnitude_spec(cr)
    } else {
        magnitude_spec(cr).neg_spec()
    };
    let cos_component = dot_spec(gc1, gc2);
    crate::units::rad_to_deg_spec(sin_component.atan2_spec(cos_component))
}

/// The initial bearing in degrees, mapped into the compass range: a negative
/// arc tangent result is shifted up by a full turn.
pub open spec fn bearing_deg_spec<T: Trig + Sqrt>(
    c0: GeodeticCoordinate2D<T>,
    c1: GeodeticCoordinate2D<T>,
) -> T {
    let raw = bearing_raw_deg_spec(c0, c1);
    if raw.lt_spec(T::zero_spec()) {
        raw.add_spec(T::from_u16_spec(360))
    } else {
        raw
    }
}

/// Errors of the great-circle computations.
#[derive(Debug, Clone, Copy, PartialEq, Eq)]
pub enum GreatCircleError {
    /// A great-circle normal was the zero vector: identical or antipodal
    /// positions, or a bearing taken at a pole.
    DegenerateGreatCircle,
    /// The computed bearing fell outside 0 to 360 degrees: the defensive
    /// check on what the formula promises found it broken.
    BearingOutOfRange,
    /// A projected position fell outside the admissible latitude or
    /// longitude intervals.
    InvalidCoordinate,
}

impl<T: Trig + Sqrt, G: GeodeticCoordinate2DTrait<T>> Length<T> for Line<G> {
    open spec fn length_model(&self) -> T {
        arc_length_spec(
            nvector_spec(self.x0_spec().latitude_spec(), self.x0_spec().longitude_spec()),
            nvector_spec(self.x1_spec().latitude_spec(), self.x1_spec().longitude_spec()),
        )
    }

    fn length(&self) -> (r: T) {
        let a: NVector<T> = to_nvector(&self.x0);
        let b: NVector<T> = to_nvector(&self.x1);

        let numerator: T = a.cross_product(b).magnitude();
        let denominator: T = a.dot_product(b);

        T::from_u16(EARTH_RADIUS).mul(numerator.atan2(denominator))
    }
}

impl<G> Line<G> {
    /// The plane normal of the great circle through the segment's endpoints:
    /// the cross product of their N-vectors. The zero vector exactly when the
    /// endpoints are identical or antipodal, which callers must treat as a
    /// degenerate circle.
    pub fn great_circle<T: Trig + Sqrt>(&self) -> (r: NVector<T>) where
        G: GeodeticCoordinate2DTrait<T>
        ensures
            r@ == cross_spec(
                nvector_spec(self.x0_spec().latitude_spec(), self.x0_spec().longitude_spec()),
                nvector_spec(self.x1_spec().latitude_spec(), self.x1_spec().longitude_spec()),
            ),
    {
        let x0: NVector<T> = to_nvector(&self.x0);
        let x1: NVector<T> = to_nvector(&self.x1);

        x0.cross_product(x1)
    }
}

impl<T: Trig + Sqrt> Line<GeodeticCoordinate2D<T>> {
    /// The initial bearing at `x0` toward `x1`. A degenerate circle — the
    /// endpoints identical or antipodal, or `x0` at a pole — is reported as
    /// an error, and so is a computed degree value outside the compass range,
    /// which the formula rules out up to rounding and is checked defensively.
    pub fn bearing(&self) -> (r: Result<Bearing<T>, GreatCircleError>)
        ensures
            match r {
                Ok(b) => !bearing_degenerate_spec(self.x0_spec(), self.x1_spec())
                    && bearing_in_range_spec(bearing_deg_spec(self.x0_spec(), self.x1_spec()))
                    && b@ == bearing_deg_spec(self.x0_spec(), self.x1_spec()),
                Err(e) => (e == GreatCircleError::DegenerateGreatCircle
                    && bearing_degenerate_spec(self.x0_spec(), self.x1_spec())) || (e
                    == GreatCircleError::BearingOutOfRange && !bearing_degenerate_spec(
                    self.x0_spec(),
                    self.x1_spec(),
                ) && !bearing_in_range_spec(bearing_deg_spec(self.x0_spec(), self.x1_spec()))),
            },
    {
        let north_vector: NVector<T> = MathVec::new([T::zero(), T::zero(), T::from_u16(1)]);
        proof {
            assert(north_vector@ =~= north_pole_spec::<T>());
        }
        let n0: NVector<T> = to_nvector(&self.x0);
        let n1: NVector<T> = to_nvector(&self.x1);
        let gc1: NVector<T> = n0.cross_product(n1);
        let gc2: NVector<T> = n0.cross_product(north_vector);

        if gc1.magnitude().eq_val(T::zero()) || gc2.magnitude().eq_val(T::zero()) {
            return Err(GreatCircleError::DegenerateGreatCircle);
        }
        let cr: NVector<T> = gc1.cross_product(gc2);

        let sin_component: T = if T::zero().le(cr.dot_product(n1)) {
            cr.magnitude()
        } else {
            cr.magnitude().neg()
        };
        let cos_component: T = gc1.dot_product(gc2);

        let raw_deg: T = sin_component.atan2(cos_component).mul(T::from_u16(180)).div(T::pi());
        let deg: T = if raw_deg.lt(T::zero()) {
            raw_deg.add(T::from_u16(360))
        } else {
            raw_deg
        };
        match Bearing::new(deg) {
            Ok(b) => Ok(b),
            Err(SetBearingError::OutOfRange) => Err(GreatCircleError::BearingOutOfRange),
        }
    }

    /// The midpoint of the segment: the destination reached from `x0` on the
    /// segment's initial bearing after half its length. Every failure of the
    /// underlying bearing or projection is passed on.
    pub fn bisect(&self) -> (r: Result<GeodeticCoordinate2D<T>, GreatCircleError>)
        ensures
            ({
                let c0 = self.x0_spec();
                let c1 = self.x1_spec();
                let brad = bearing_deg_spec(c0, c1).div_spec(T::from_u16_spec(180)).mul_spec(
                    T::pi_spec(),
                );
                let half = line_length_spec(c0, c1).div_spec(T::from_u16_spec(2));
                let dest = destination_nvector_spec(
                    c0.latitude_spec(),
                    c0.longitude_spec(),
                    brad,
                    half,
                );
                match r {
                    Ok(c) => !bearing_degenerate_spec(c0, c1) && bearing_in_range_spec(
                        bearing_deg_spec(c0, c1),
                    ) && valid_latitude_spec(latitude_of_nvector_spec(dest))
                        && valid_longitude_spec(longitude_of_nvector_spec(dest))
                        && c.latitude_spec() == latitude_of_nvector_spec(dest)
                        && c.longitude_spec() == longitude_of_nvector_spec(dest),
                    Err(e) => (e == GreatCircleError::DegenerateGreatCircle
                        && bearing_degenerate_spec(c0, c1)) || (e
                        == GreatCircleError::BearingOutOfRange && !bearing_degenerate_spec(c0, c1)
                        && !bearing_in_range_spec(bearing_deg_spec(c0, c1))) || (e
                        == GreatCircleError::InvalidCoordinate && !bearing_degenerate_spec(c0, c1)
                        && bearing_in_range_spec(bearing_deg_spec(c0, c1)) && !(
                        valid_latitude_spec(latitude_of_nvector_spec(dest))
                            && valid_longitude_spec(longitude_of_nvector_spec(dest)))),
                }
            }),
    {
        let b = match self.bearing() {
            Ok(b) => b,
            Err(e) => {
                return Err(e);
            },
        };
        let half: T = self.length().div(T::from_u16(2));
        match self.x0.new_from(b.to_angle(), Distance::from_kilometers(half)) {
            Ok(c) => Ok(c),
            Err(_) => Err(GreatCircleError::InvalidCoordinate),
        }
    }
}

/// Whether the position `p` lies within the angular span of the segment from
/// `c0` to `c1`: no farther from either endpoint, along the sphere, than the
/// endpoints are from each other. For a position on the segment's great
/// circle this is membership in the shorter arc.
pub open spec fn within_segment_spec<T: Trig + Sqrt>(
    c0: GeodeticCoordinate2D<T>,
    c1: GeodeticCoordinate2D<T>,
    p: GeodeticCoordinate2D<T>,
) -> bool {
    let a = nvector_spec(c0.latitude_spec(), c0.longitude_spec());
    let b = nvector_spec(c1.latitude_spec(), c1.longitude_spec());
    let q = nvector_spec(p.latitude_spec(), p.longitude_spec());
    arc_length_spec(a, q).le_spec(arc_length_spec(a, b)) && arc_length_spec(q, b).le_spec(
        arc_length_spec(a, b),
    )
}

/// What one candidate direction contributes to a segment intersection: the
/// position it points at, when that position is admissible and lies within
/// the angular span of both segments, and nothing otherwise.
pub open spec fn candidate_contribution_spec<T: Trig + Sqrt>(
    s0: GeodeticCoordinate2D<T>,
    s1: GeodeticCoordinate2D<T>,
    t0: GeodeticCoordinate2D<T>,
    t1: GeodeticCoordinate2D<T>,
    cand: Seq<T>,
) -> Seq<GeodeticCoordinate2D<T>> {
    if valid_latitude_spec(latitude_of_nvector_spec(cand)) && valid_longitude_spec(
        longitude_of_nvector_spec(cand),
    ) {
        let p = coordinate_spec(latitude_of_nvector_spec(cand), longitude_of_nvector_spec(cand));
        if within_segment_spec(s0, s1, p) && within_segment_spec(t0, t1, p) {
            seq![p]
        } else {
            Seq::empty()
        }
    } else {
        Seq::empty()
    }
}

/// The positions common to both finite segments: of the two antipodal
/// directions where the segments' great circles meet, those that point at an
/// admissible position lying within the angular span of both segments.
pub open spec fn segment_intersections_spec<T: Trig + Sqrt>(
    s0: GeodeticCoordinate2D<T>,
    s1: GeodeticCoordinate2D<T>,
    t0: GeodeticCoordinate2D<T>,
    t1: GeodeticCoordinate2D<T>,
) -> Seq<GeodeticCoordinate2D<T>> {
    let g1 = great_circle_spec(s0, s1);
    let g2 = great_circle_spec(t0, t1);
    candidate_contribution_spec(s0, s1, t0, t1, cross_spec(g1, g2)) + candidate_contribution_spec(
        s0,
        s1,
        t0,
        t1,
        cross_spec(g2, g1),
    )
}

/// Whether the segment intersection of two segments is degenerate: one of the
/// segments has a zero great-circle normal, or the two great circles are the
/// same circle, so their normals' cross product is the zero vector.
pub open spec fn intersection_degenerate_spec<T: Trig + Sqrt>(
    s0: GeodeticCoordinate2D<T>,
    s1: GeodeticCoordinate2D<T>,
    t0: GeodeticCoordinate2D<T>,
    t1: GeodeticCoordinate2D<T>,
) -> bool {
    let g1 = great_circle_spec(s0, s1);
    let g2 = great_circle_spec(t0, t1);
    magnitude_spec(g1).eqv(T::zero_spec()) || magnitude_spec(g2).eqv(T::zero_spec())
        || magnitude_spec(cross_spec(g1, g2)).eqv(T::zero_spec())
}

impl<T: Trig + Sqrt> Line<GeodeticCoordinate2D<T>> {
    /// Whether `p` lies within the angular span of the segment from `c0` to
    /// `c1`.
    fn within_segment(
        c0: &GeodeticCoordinate2D<T>,
        c1: &GeodeticCoordinate2D<T>,
        p: &GeodeticCoordinate2D<T>,
    ) -> (r: bool)
        ensures
            r == within_segment_spec(*c0, *c1, *p),
    {
        let a: NVector<T> = to_nvector(c0);
        let b: NVector<T> = to_nvector(c1);
        let q: NVector<T> = to_nvector(p);
        let span: T = T::from_u16(EARTH_RADIUS).mul(
            a.cross_product(b).magnitude().atan2(a.dot_product(b)),
        );
        let from_start: T = T::from_u16(EARTH_RADIUS).mul(
            a.cross_product(q).magnitude().atan2(a.dot_product(q)),
        );
        let to_end: T = T::from_u16(EARTH_RADIUS).mul(
            q.cross_product(b).magnitude().atan2(q.dot_product(b)),
        );
        from_start.le(span) && to_end.le(span)
    }

    /// The positions where this segment and `line` meet: the two candidate
    /// directions where the great circles intersect, kept when they point at
    /// an admissible position within both segments' angular spans. A
    /// degenerate configuration — a zero segment normal, or the segments on
    /// one great circle — is reported as an error.
    pub fn intersection_points(&self, line: &Line<GeodeticCoordinate2D<T>>) -> (r: Result<
        Vec<GeodeticCoordinate2D<T>>,
        GreatCircleError,
    >)
        ensures
            match r {
                Ok(v) => !intersection_degenerate_spec(
                    self.x0_spec(),
                    self.x1_spec(),
                    line.x0_spec(),
                    line.x1_spec(),
                ) && v@ == segment_intersections_spec(
                    self.x0_spec(),
                    self.x1_spec(),
                    line.x0_spec(),
                    line.x1_spec(),
                ),
                Err(e) => e == GreatCircleError::DegenerateGreatCircle
                    && intersection_degenerate_spec(
                    self.x0_spec(),
                    self.x1_spec(),
                    line.x0_spec(),
                    line.x1_spec(),
                ),
            },
    {
        let self_nvec: NVector<T> = self.great_circle();
        let line_nvec: NVector<T> = line.great_circle();

        let cand1: NVector<T> = self_nvec.cross_product(line_nvec);
        let cand2: NVector<T> = line_nvec.cross_product(self_nvec);

        if self_nvec.magnitude().eq_val(T::zero()) || line_nvec.magnitude().eq_val(T::zero())
            || cand1.magnitude().eq_val(T::zero()) {
            return Err(GreatCircleError::DegenerateGreatCircle);
        }
        let mut out: Vec<GeodeticCoordinate2D<T>> = Vec::new();
        match GeodeticCoordinate2D::from_nvector(&cand1) {
            Ok(p) => {
                if Self::within_segment(&self.x0, &self.x1, &p) && Self::within_segment(
                    &line.x0,
                    &line.x1,
                    &p,
                ) {
                    out.push(p);
                }
            },
            Err(_) => {
            },
        }
        let ghost halfway: Seq<GeodeticCoordinate2D<T>> = out@;
        proof {
            assert(halfway =~= candidate_contribution_spec(
                self.x0_spec(),
                self.x1_spec(),
                line.x0_spec(),
                line.x1_spec(),
                cand1@,
            ));
        }
        match GeodeticCoordinate2D::from_nvector(&cand2) {
            Ok(p) => {
                if Self::within_segment(&self.x0, &self.x1, &p) && Self::within_segment(
                    &line.x0,
                    &line.x1,
                    &p,
                ) {
                    out.push(p);
                }
            },
            Err(_) => {
            },
        }
        proof {
            assert(out@ =~= segment_intersections_spec(
                self.x0_spec(),
                self.x1_spec(),
                line.x0_spec(),
                line.x1_spec(),
            ));
        }
        Ok(out)
    }
}

impl<T: Trig + Sqrt> Intersect<GeodeticCoordinate2D<T>> for Line<GeodeticCoordinate2D<T>> {
    open spec fn intersections_spec(&self, line: Line<GeodeticCoordinate2D<T>>) -> Seq<
        GeodeticCoordinate2D<T>,
    > {
        if intersection_degenerate_spec(
            self.x0_spec(),
            self.x1_spec(),
            line.x0_spec(),
            line.x1_spec(),
        ) {
            Seq::empty()
        } else {
            segment_intersections_spec(
                self.x0_spec(),
                self.x1_spec(),
                line.x0_spec(),
                line.x1_spec(),
            )
        }
    }

    fn intersects(&self, line: Line<GeodeticCoordinate2D<T>>) -> (r: Vec<GeodeticCoordinate2D<T>>) {
        match self.intersection_points(&line) {
            Ok(v) => v,
            Err(_) => Vec::new(),
        }
    }
}

/// Law: distance is symmetric. The arc length between two N-vectors of real
/// components, whose cross-product terms are real, does not depend on the
/// order of its arguments: the swapped cross product negates each component,
/// which squaring erases, and the dot product commutes.
pub proof fn lemma_arc_length_symmetric<T: Trig + Sqrt>(a: Seq<T>, b: Seq<T>)
    requires
        a.len() == 3,
        b.len() == 3,
        forall|i: int| 0 <= i < 3 ==> (#[trigger] a[i]).is_real(),
        forall|i: int| 0 <= i < 3 ==> (#[trigger] b[i]).is_real(),
        cross_products_real(a, b),
    ensures
        arc_length_spec(a, b) == arc_length_spec(b, a),
{
    lemma_dot_symmetric(a, b);
    T::law_mul_comm(b[1], a[2]);
    T::law_mul_comm(b[2], a[1]);
    T::law_mul_comm(b[2], a[0]);
    T::law_mul_comm(b[0], a[2]);
    T::law_mul_comm(b[0], a[1]);
    T::law_mul_comm(b[1], a[0]);
    T::law_sub_square_sym(a[1].mul_spec(b[2]), a[2].mul_spec(b[1]));
    T::law_sub_square_sym(a[2].mul_spec(b[0]), a[0].mul_spec(b[2]));
    T::law_sub_square_sym(a[0].mul_spec(b[1]), a[1].mul_spec(b[0]));
    let c1 = cross_spec(a, b);
    let c2 = cross_spec(b, a);
    assert(forall|i: int| 0 <= i < 3 ==> (#[trigger] c1[i]).mul_spec(c1[i]) == c2[i].mul_spec(
        c2[i],
    ));
    lemma_dot_squares_equal(c1, c2);
}

/// Law: the length of a segment equals the length of the reversed segment,
/// on positions whose N-vector components and cross-product terms are real.
pub proof fn lemma_line_length_symmetric<T: Trig + Sqrt>(
    c0: GeodeticCoordinate2D<T>,
    c1: GeodeticCoordinate2D<T>,
)
    requires
        ({
            let a = nvector_spec(c0.latitude_spec(), c0.longitude_spec());
            let b = nvector_spec(c1.latitude_spec(), c1.longitude_spec());
            &&& forall|i: int| 0 <= i < 3 ==> (#[trigger] a[i]).is_real()
            &&& forall|i: int| 0 <= i < 3 ==> (#[trigger] b[i]).is_real()
            &&& cross_products_real(a, b)
        }),
    ensures
        line_length_spec(c0, c1) == line_length_spec(c1, c0),
{
    lemma_arc_length_symmetric(
        nvector_spec(c0.latitude_spec(), c0.longitude_spec()),
        nvector_spec(c1.latitude_spec(), c1.longitude_spec()),
    );
}

} // verus!
