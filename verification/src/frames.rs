//! Celestial coordinate system definitions.
//!
//! Frames are zero-sized marker types; a coordinate carries its frame in
//! its type and only the three Cartesian components in its value, as whole
//! millimetres. Two frames may be declared interchangeable, and a
//! coordinate then casts between them with its components untouched — no
//! rotation, at no runtime cost.

use vstd::prelude::*;

verus! {

/// Relies on the standard library's `Clone` for `PhantomData`, a zero-sized
/// type with a single value: cloning it returns that same value.
pub assume_specification<T: core::marker::PointeeSized>[ <core::marker::PhantomData<T> as Clone>::clone ](
    p: &core::marker::PhantomData<T>,
) -> (r: core::marker::PhantomData<T>)
    ensures
        r == *p,
;

/// Celestial coordinate convention: right-handed XYZ with the z axis
/// towards the frame's reference pole and the x axis towards its
/// reference direction.
#[derive(Clone, Copy, Debug, PartialEq, Eq, Structural)]
pub struct CelestialConvention;

/// A celestial reference frame: a zero-sized marker type carrying the
/// coordinate convention of its axes.
pub trait CelestialFrame: Sized {
    /// The axis convention of the frame.
    type Convention;
}

/// Declares that coordinates of the implementing frame may be reinterpreted
/// in frame `F` without any numerical change.
pub trait EquivalentTo<F: CelestialFrame>: CelestialFrame {

}

/// Cartesian components for celestial coordinate systems, in millimetres.
#[derive(Clone, Copy, Debug, PartialEq, Eq, Structural)]
pub struct CelestialComponents {
    /// X component, in millimetres.
    pub x_mm: i64,
    /// Y component, in millimetres.
    pub y_mm: i64,
    /// Z component, in millimetres.
    pub z_mm: i64,
}

impl CelestialComponents {
    /// The components as an `[x, y, z]` array of millimetres.
    pub fn to_array_mm(self) -> (r: [i64; 3])
        ensures
            r@ == seq![self.x_mm, self.y_mm, self.z_mm],
    {
        let r: [i64; 3] = [self.x_mm, self.y_mm, self.z_mm];
        proof {
            assert(r@ =~= seq![self.x_mm, self.y_mm, self.z_mm]);
        }
        r
    }

    /// Components from an `[x, y, z]` array of millimetres.
    pub fn from_array_mm(a: [i64; 3]) -> (r: CelestialComponents)
        ensures
            r.x_mm == a@[0] && r.y_mm == a@[1] && r.z_mm == a@[2],
    {
        CelestialComponents { x_mm: a[0], y_mm: a[1], z_mm: a[2] }
    }
}

/// International Celestial Reference System (ICRS).
///
/// The fundamental quasi-inertial, Earth-centred reference frame: the z
/// axis towards the North Celestial Pole, the x axis towards the vernal
/// equinox of the J2000.0 epoch, aligned by observation of distant
/// extragalactic sources.
#[derive(Clone, Copy, Debug, PartialEq, Eq, Structural)]
pub struct Icrs;

impl CelestialFrame for Icrs {
    type Convention = CelestialConvention;
}

/// Moon-Centered Inertial (MCI) reference frame.
///
/// A selenocentric frame aligned with the Moon's mean principal axes per
/// the IAU 2009 orientation constants: the z axis towards the lunar north
/// pole, the x axis towards the mean sub-Earth point.
#[derive(Clone, Copy, Debug, PartialEq, Eq, Structural)]
pub struct Mci;

impl CelestialFrame for Mci {
    type Convention = CelestialConvention;
}

/// A Cartesian point tagged with the celestial frame `F` it is expressed
/// in. The frame lives only in the type; the value holds the components.
#[derive(Clone, Copy, Debug)]
pub struct Coordinate<F: CelestialFrame> {
    /// The Cartesian components, in millimetres.
    pub components: CelestialComponents,
    /// The frame marker, with no runtime representation.
    pub frame: core::marker::PhantomData<F>,
}

/// Components within which squared distances between two coordinates stay
/// representable: 4·10¹² kilometres, in millimetres.
pub const MAX_COMPONENT_MM: i64 = 4_000_000_000_000_000_000;

impl<F: CelestialFrame> Coordinate<F> {
    /// Whether every component is small enough for distance arithmetic.
    pub open spec fn in_range(&self) -> bool {
        &&& -MAX_COMPONENT_MM <= self.components.x_mm <= MAX_COMPONENT_MM
        &&& -MAX_COMPONENT_MM <= self.components.y_mm <= MAX_COMPONENT_MM
        &&& -MAX_COMPONENT_MM <= self.components.z_mm <= MAX_COMPONENT_MM
    }

    /// Build a coordinate of frame `F` from Cartesian components.
    pub fn build(components: CelestialComponents) -> (r: Coordinate<F>)
        ensures
            r.components == components,
    {
        Coordinate { components, frame: core::marker::PhantomData }
    }

    /// The Cartesian components of the point.
    pub fn to_cartesian(&self) -> (r: CelestialComponents)
        ensures
            r == self.components,
    {
        self.components
    }

    /// Reinterpret the point in an equivalent frame. The components are
    /// returned untouched: no rotation is applied and nothing is computed.
    pub fn cast<F2: CelestialFrame>(self) -> (r: Coordinate<F2>) where F: EquivalentTo<F2>
        ensures
            r.components == self.components,
    {
        Coordinate { components: self.components, frame: core::marker::PhantomData }
    }

    /// The distance of the point from the origin of its frame, in whole
    /// millimetres (rounded down).
    pub fn distance_from_origin(&self) -> (r: u64)
        requires
            self.in_range(),
        ensures
            (r as int) * (r as int) <= spec_norm_squared(
                self.components.x_mm as int,
                self.components.y_mm as int,
                self.components.z_mm as int,
            ) < ((r as int) + 1) * ((r as int) + 1),
    {
        norm_mm(self.components.x_mm, self.components.y_mm, self.components.z_mm)
    }

    /// The distance between this point and another point of the same
    /// frame, in whole millimetres (rounded down).
    pub fn distance_from(&self, other: &Coordinate<F>) -> (r: u64)
        requires
            self.in_range(),
            other.in_range(),
        ensures
            (r as int) * (r as int) <= spec_norm_squared(
                self.components.x_mm - other.components.x_mm,
                self.components.y_mm - other.components.y_mm,
                self.components.z_mm - other.components.z_mm,
            ) < ((r as int) + 1) * ((r as int) + 1),
    {
        norm_mm(
            self.components.x_mm - other.components.x_mm,
            self.components.y_mm - other.components.y_mm,
            self.components.z_mm - other.components.z_mm,
        )
    }
}

/// A length scaled by a trigonometric value: `v · t / 10¹⁸` with floor
/// division, for `t` in [−1, 1] scaled by 10¹⁸.
pub open spec fn spec_scaled_mm(v_mm: int, t_e18: int) -> int {
    v_mm * t_e18 / 1_000_000_000_000_000_000
}

/// X component of a point at right ascension α, declination δ and radius
/// r: r·cos δ·cos α.
pub open spec fn spec_ra_dec_x_mm(r_mm: int, cos_ra_e18: int, cos_dec_e18: int) -> int {
    spec_scaled_mm(spec_scaled_mm(r_mm, cos_dec_e18), cos_ra_e18)
}

/// Y component of a point at right ascension α, declination δ and radius
/// r: r·cos δ·sin α.
pub open spec fn spec_ra_dec_y_mm(r_mm: int, sin_ra_e18: int, cos_dec_e18: int) -> int {
    spec_scaled_mm(spec_scaled_mm(r_mm, cos_dec_e18), sin_ra_e18)
}

/// Z component of a point at declination δ and radius r: r·sin δ.
pub open spec fn spec_ra_dec_z_mm(r_mm: int, sin_dec_e18: int) -> int {
    spec_scaled_mm(r_mm, sin_dec_e18)
}

/// Scale a length by a trigonometric value, exactly as the specification's
/// floor division; the result never exceeds the length's magnitude bound.
pub(crate) fn scaled_mm(v_mm: i64, t_e18: i64) -> (r: i64)
    requires
        -MAX_COMPONENT_MM <= v_mm <= MAX_COMPONENT_MM,
        -1_000_000_000_000_000_000 <= t_e18 <= 1_000_000_000_000_000_000,
    ensures
        r == spec_scaled_mm(v_mm as int, t_e18 as int),
        -MAX_COMPONENT_MM <= r <= MAX_COMPONENT_MM,
{
    proof {
        assert(-4_000_000_000_000_000_000_000_000_000_000_000_000int <= (v_mm as int) * (
        t_e18 as int) <= 4_000_000_000_000_000_000_000_000_000_000_000_000int)
            by (nonlinear_arith)
            requires
                -4_000_000_000_000_000_000 <= v_mm as int <= 4_000_000_000_000_000_000,
                -1_000_000_000_000_000_000 <= t_e18 as int <= 1_000_000_000_000_000_000,
        ;
    }
    let r: i128 = crate::math::mul_div_floor(
        v_mm as i128,
        t_e18 as i128,
        1_000_000_000_000_000_000,
    );
    proof {
        vstd::arithmetic::div_mod::lemma_div_is_ordered(
            -4_000_000_000_000_000_000_000_000_000_000_000_000int,
            (v_mm as int) * (t_e18 as int),
            1_000_000_000_000_000_000,
        );
        vstd::arithmetic::div_mod::lemma_div_is_ordered(
            (v_mm as int) * (t_e18 as int),
            4_000_000_000_000_000_000_000_000_000_000_000_000int,
            1_000_000_000_000_000_000,
        );
    }
    r as i64
}

impl<F: CelestialFrame> Coordinate<F> {
    /// Build a coordinate from spherical celestial components — radius,
    /// right ascension α and declination δ — over the sines and cosines of
    /// the two angles, each in [−1, 1] scaled by 10¹⁸, as the caller
    /// evaluates them: x = r·cos δ·cos α, y = r·cos δ·sin α, z = r·sin δ.
    pub fn from_ra_dec_trig(
        r_mm: i64,
        sin_ra_e18: i64,
        cos_ra_e18: i64,
        sin_dec_e18: i64,
        cos_dec_e18: i64,
    ) -> (c: Coordinate<F>)
        requires
            0 <= r_mm <= MAX_COMPONENT_MM,
            -1_000_000_000_000_000_000 <= sin_ra_e18 <= 1_000_000_000_000_000_000,
            -1_000_000_000_000_000_000 <= cos_ra_e18 <= 1_000_000_000_000_000_000,
            -1_000_000_000_000_000_000 <= sin_dec_e18 <= 1_000_000_000_000_000_000,
            -1_000_000_000_000_000_000 <= cos_dec_e18 <= 1_000_000_000_000_000_000,
        ensures
            c.components.x_mm == spec_ra_dec_x_mm(
                r_mm as int,
                cos_ra_e18 as int,
                cos_dec_e18 as int,
            ),
            c.components.y_mm == spec_ra_dec_y_mm(
                r_mm as int,
                sin_ra_e18 as int,
                cos_dec_e18 as int,
            ),
            c.components.z_mm == spec_ra_dec_z_mm(r_mm as int, sin_dec_e18 as int),
            c.in_range(),
    {
        let r_cos_dec: i64 = scaled_mm(r_mm, cos_dec_e18);
        let x_mm: i64 = scaled_mm(r_cos_dec, cos_ra_e18);
        let y_mm: i64 = scaled_mm(r_cos_dec, sin_ra_e18);
        let z_mm: i64 = scaled_mm(r_mm, sin_dec_e18);
        Coordinate::build(CelestialComponents { x_mm, y_mm, z_mm })
    }
}

/// The squared Euclidean norm of a Cartesian triple.
pub open spec fn spec_norm_squared(x: int, y: int, z: int) -> int {
    x * x + y * y + z * z
}

/// The Euclidean norm of a millimetre triple, rounded down to whole
/// millimetres.
fn norm_mm(x: i64, y: i64, z: i64) -> (r: u64)
    requires
        -2 * MAX_COMPONENT_MM <= x <= 2 * MAX_COMPONENT_MM,
        -2 * MAX_COMPONENT_MM <= y <= 2 * MAX_COMPONENT_MM,
        -2 * MAX_COMPONENT_MM <= z <= 2 * MAX_COMPONENT_MM,
    ensures
        (r as int) * (r as int) <= spec_norm_squared(x as int, y as int, z as int) < ((
        r as int) + 1) * ((r as int) + 1),
{
    proof {
        assert(0 <= (x as int) * (x as int)
            <= 64_000_000_000_000_000_000_000_000_000_000_000_000int && 0 <= (y as int) * (
        y as int) <= 64_000_000_000_000_000_000_000_000_000_000_000_000int && 0 <= (z as int)
            * (z as int) <= 64_000_000_000_000_000_000_000_000_000_000_000_000int)
            by (nonlinear_arith)
            requires
                -8_000_000_000_000_000_000 <= x as int <= 8_000_000_000_000_000_000,
                -8_000_000_000_000_000_000 <= y as int <= 8_000_000_000_000_000_000,
                -8_000_000_000_000_000_000 <= z as int <= 8_000_000_000_000_000_000,
        ;
    }
    let xx: u128 = (x as i128 * x as i128) as u128;
    let yy: u128 = (y as i128 * y as i128) as u128;
    let zz: u128 = (z as i128 * z as i128) as u128;
    crate::math::isqrt_u128(xx + yy + zz)
}

} // verus!
