//! The orbital coordinate engine.
//!
//! A `Coord` carries one position redundantly in Cartesian `(x, y, z)` and
//! spherical `(r, azimuth, elevation)` form. Every constructor and setter
//! recomputes the other representation in full, so no observable state
//! ever holds a partial update. Advancing an orbit is one azimuth
//! increment through `set_spherical`, which provably leaves the radius and
//! the elevation untouched.

use vstd::prelude::*;

use crate::scalar::{
    add_bits, asin_bits, atan2_bits, cos_bits, div_bits, is_zero_bits, mul_bits, real_add,
    real_asin, real_atan2, real_cos, real_div, real_is_zero, real_mul, real_sin, real_sqrt,
    sin_bits, sqrt_bits, ZERO_BITS,
};

verus! {

/// A tracked position in both Cartesian and spherical form; every field
/// is a binary64 bit pattern.
#[derive(Clone, Debug)]
pub struct Coord {
    pub x: u64,
    pub y: u64,
    pub z: u64,
    pub r: u64,
    pub azimuth: u64,
    pub elevation: u64,
}

/// The radius derived from Cartesian coordinates:
/// `sqrt(x*x + y*y + z*z)`.
pub open spec fn sph_r(x: u64, y: u64, z: u64) -> u64 {
    sqrt_bits(add_bits(add_bits(mul_bits(x, x), mul_bits(y, y)), mul_bits(z, z)))
}

/// The azimuth derived from Cartesian coordinates: `atan2(y, x)`, defined
/// as 0 when both `x` and `y` equal zero.
pub open spec fn sph_azimuth(x: u64, y: u64) -> u64 {
    if is_zero_bits(x) && is_zero_bits(y) {
        ZERO_BITS
    } else {
        atan2_bits(y, x)
    }
}

/// The elevation derived from `z` and the radius: `asin(z / r)`, defined
/// as 0 when the radius equals zero.
pub open spec fn sph_elevation(z: u64, rr: u64) -> u64 {
    if is_zero_bits(rr) {
        ZERO_BITS
    } else {
        asin_bits(div_bits(z, rr))
    }
}

/// The Cartesian triple derived from spherical coordinates:
/// `(r cos e cos a, r cos e sin a, r sin e)`.
pub open spec fn cart_from_sph(rr: u64, azimuth: u64, elevation: u64) -> (u64, u64, u64) {
    let cos_elev = cos_bits(elevation);
    let sin_elev = sin_bits(elevation);
    let cos_azim = cos_bits(azimuth);
    let sin_azim = sin_bits(azimuth);
    (
        mul_bits(mul_bits(rr, cos_elev), cos_azim),
        mul_bits(mul_bits(rr, cos_elev), sin_azim),
        mul_bits(rr, sin_elev),
    )
}

/// The coordinate holding the Cartesian position `(x, y, z)` with its
/// derived spherical representation.
pub open spec fn coord_from_cartesian(x: u64, y: u64, z: u64) -> Coord {
    Coord {
        x,
        y,
        z,
        r: sph_r(x, y, z),
        azimuth: sph_azimuth(x, y),
        elevation: sph_elevation(z, sph_r(x, y, z)),
    }
}

/// The coordinate holding the spherical position `(r, azimuth,
/// elevation)` with its derived Cartesian representation.
pub open spec fn coord_from_spherical(rr: u64, azimuth: u64, elevation: u64) -> Coord {
    let c = cart_from_sph(rr, azimuth, elevation);
    Coord { x: c.0, y: c.1, z: c.2, r: rr, azimuth, elevation }
}

/// One orbital tick: the azimuth advances by `w`, the radius and the
/// elevation are carried over, and the Cartesian form is rederived.
pub open spec fn tick_spec(c: Coord, w: u64) -> Coord {
    coord_from_spherical(c.r, add_bits(c.azimuth, w), c.elevation)
}

/// `n` orbital ticks of angular speed `w`.
pub open spec fn iter_tick(c: Coord, w: u64, n: nat) -> Coord
    decreases n,
{
    if n == 0 {
        c
    } else {
        tick_spec(iter_tick(c, w, (n - 1) as nat), w)
    }
}

/// The azimuth after `n` additions of `w`.
pub open spec fn iter_add(a: u64, w: u64, n: nat) -> u64
    decreases n,
{
    if n == 0 {
        a
    } else {
        add_bits(iter_add(a, w, (n - 1) as nat), w)
    }
}

/// Law: orbital motion is uniform and planar. After any number of ticks
/// of fixed angular speed `w`, the radius and the elevation are exactly
/// the initial ones, and the azimuth is the initial azimuth advanced by
/// one binary64 addition of `w` per tick.
pub proof fn lemma_orbital_ticks(c: Coord, w: u64, n: nat)
    ensures
        iter_tick(c, w, n).r == c.r,
        iter_tick(c, w, n).elevation == c.elevation,
        iter_tick(c, w, n).azimuth == iter_add(c.azimuth, w, n),
    decreases n,
{
    if n > 0 {
        lemma_orbital_ticks(c, w, (n - 1) as nat);
    }
}

/// Law (one direction of the conversion round trip): rebuilding a
/// coordinate from another's spherical reading reproduces that spherical
/// reading exactly.
pub proof fn lemma_spherical_reading_round_trip(c: Coord)
    ensures
        coord_from_spherical(c.r, c.azimuth, c.elevation).r == c.r,
        coord_from_spherical(c.r, c.azimuth, c.elevation).azimuth == c.azimuth,
        coord_from_spherical(c.r, c.azimuth, c.elevation).elevation == c.elevation,
{
}

impl Coord {
    /// Constructs from a Cartesian position, deriving the spherical form.
    pub fn new_cartesian(x: u64, y: u64, z: u64) -> (c: Coord)
        ensures
            c == coord_from_cartesian(x, y, z),
    {
        let r = real_sqrt(real_add(real_add(real_mul(x, x), real_mul(y, y)), real_mul(z, z)));
        let azimuth = if real_is_zero(x) && real_is_zero(y) {
            0x0000_0000_0000_0000
        } else {
            real_atan2(y, x)
        };
        let elevation = if real_is_zero(r) {
            0x0000_0000_0000_0000
        } else {
            real_asin(real_div(z, r))
        };
        Coord { x, y, z, r, azimuth, elevation }
    }

    /// Constructs from a spherical position, deriving the Cartesian form.
    pub fn new_spherical(r: u64, azimuth: u64, elevation: u64) -> (c: Coord)
        ensures
            c == coord_from_spherical(r, azimuth, elevation),
    {
        let cos_elev = real_cos(elevation);
        let sin_elev = real_sin(elevation);
        let cos_azim = real_cos(azimuth);
        let sin_azim = real_sin(azimuth);
        let x = real_mul(real_mul(r, cos_elev), cos_azim);
        let y = real_mul(real_mul(r, cos_elev), sin_azim);
        let z = real_mul(r, sin_elev);
        Coord { x, y, z, r, azimuth, elevation }
    }

    /// Replaces the Cartesian position and rederives the spherical form
    /// atomically.
    pub fn set_cartesian(&mut self, x: u64, y: u64, z: u64)
        ensures
            *final(self) == coord_from_cartesian(x, y, z),
    {
        *self = Coord::new_cartesian(x, y, z);
    }

    /// Replaces the spherical position and rederives the Cartesian form
    /// atomically.
    pub fn set_spherical(&mut self, r: u64, azimuth: u64, elevation: u64)
        ensures
            *final(self) == coord_from_spherical(r, azimuth, elevation),
    {
        *self = Coord::new_spherical(r, azimuth, elevation);
    }

    /// The Cartesian representation.
    pub fn cartesian(&self) -> (t: (u64, u64, u64))
        ensures
            t == (self.x, self.y, self.z),
    {
        (self.x, self.y, self.z)
    }

    /// The spherical representation.
    pub fn spherical(&self) -> (t: (u64, u64, u64))
        ensures
            t == (self.r, self.azimuth, self.elevation),
    {
        (self.r, self.azimuth, self.elevation)
    }

    /// Componentwise vector sum, renormalized through the Cartesian
    /// constructor.
    pub fn plus(&self, rhs: &Coord) -> (c: Coord)
        ensures
            c == coord_from_cartesian(
                add_bits(self.x, rhs.x),
                add_bits(self.y, rhs.y),
                add_bits(self.z, rhs.z),
            ),
    {
        Coord::new_cartesian(
            real_add(self.x, rhs.x),
            real_add(self.y, rhs.y),
            real_add(self.z, rhs.z),
        )
    }

    /// Componentwise vector difference, renormalized through the
    /// Cartesian constructor.
    pub fn minus(&self, rhs: &Coord) -> (c: Coord)
        ensures
            c == coord_from_cartesian(
                crate::scalar::sub_bits(self.x, rhs.x),
                crate::scalar::sub_bits(self.y, rhs.y),
                crate::scalar::sub_bits(self.z, rhs.z),
            ),
    {
        Coord::new_cartesian(
            crate::scalar::real_sub(self.x, rhs.x),
            crate::scalar::real_sub(self.y, rhs.y),
            crate::scalar::real_sub(self.z, rhs.z),
        )
    }

    /// Scalar multiple, renormalized through the Cartesian constructor.
    pub fn times(&self, rhs: u64) -> (c: Coord)
        ensures
            c == coord_from_cartesian(
                mul_bits(self.x, rhs),
                mul_bits(self.y, rhs),
                mul_bits(self.z, rhs),
            ),
    {
        Coord::new_cartesian(real_mul(self.x, rhs), real_mul(self.y, rhs), real_mul(self.z, rhs))
    }
}

} // verus!
