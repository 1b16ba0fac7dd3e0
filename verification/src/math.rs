//! Fixed-point scalars and small vector types.
//!
//! Every scalar the bridge stores or hands to the engine is a signed
//! fixed-point number with `SCALE` units per world unit. The bridge itself
//! only ever stores, compares and rescales such values; anything that needs
//! real-number arithmetic belongs to the engine.

use vstd::prelude::*;

verus! {

/// Fixed-point units per world unit.
pub const SCALE: i64 = 65536;

/// A three-component vector of fixed-point scalars.
#[derive(Clone, Copy, PartialEq, Eq, Structural, Debug)]
pub struct Vec3 {
    pub x: i64,
    pub y: i64,
    pub z: i64,
}

impl Vec3 {
    pub open spec fn zero_spec() -> Vec3 {
        Vec3 { x: 0, y: 0, z: 0 }
    }

    pub fn new(x: i64, y: i64, z: i64) -> (r: Vec3)
        ensures
            r == (Vec3 { x, y, z }),
    {
        Vec3 { x, y, z }
    }

    pub fn zero() -> (r: Vec3)
        ensures
            r == Vec3::zero_spec(),
    {
        Vec3 { x: 0, y: 0, z: 0 }
    }
}

/// A two-component vector of fixed-point scalars.
#[derive(Clone, Copy, PartialEq, Eq, Structural, Debug)]
pub struct Vec2 {
    pub x: i64,
    pub y: i64,
}

impl Vec2 {
    pub open spec fn zero_spec() -> Vec2 {
        Vec2 { x: 0, y: 0 }
    }

    pub fn new(x: i64, y: i64) -> (r: Vec2)
        ensures
            r == (Vec2 { x, y }),
    {
        Vec2 { x, y }
    }

    pub fn zero() -> (r: Vec2)
        ensures
            r == Vec2::zero_spec(),
    {
        Vec2 { x: 0, y: 0 }
    }
}

/// The product of two fixed-point scalars, rounded toward zero.
pub open spec fn fx_mul_spec(a: int, b: int) -> int {
    if a * b >= 0 {
        (a * b) / (SCALE as int)
    } else {
        -((-(a * b)) / (SCALE as int))
    }
}

/// Whether the fixed-point product of `a` and `b` fits in an `i64`.
pub open spec fn fx_mul_fits(a: int, b: int) -> bool {
    i64::MIN <= fx_mul_spec(a, b) <= i64::MAX
}

/// Multiplies two fixed-point scalars, rounding toward zero.
pub fn fx_mul(a: i64, b: i64) -> (r: i64)
    requires
        fx_mul_fits(a as int, b as int),
    ensures
        r == fx_mul_spec(a as int, b as int),
{
    let neg: bool = (a < 0) != (b < 0);
    let am: u128 = if a >= 0 {
        a as u128
    } else {
        (-(a as i128)) as u128
    };
    let bm: u128 = if b >= 0 {
        b as u128
    } else {
        (-(b as i128)) as u128
    };
    assert(am == if a >= 0 { a as int } else { -(a as int) });
    assert(bm == if b >= 0 { b as int } else { -(b as int) });
    assert(am * bm <= 0x8000000000000000u128 * 0x8000000000000000u128) by (nonlinear_arith)
        requires
            am <= 0x8000000000000000u128,
            bm <= 0x8000000000000000u128,
    ;
    let mag: u128 = am * bm;
    proof {
        if a >= 0 && b >= 0 {
            assert(a * b == am * bm) by (nonlinear_arith)
                requires
                    am == a as int,
                    bm == b as int,
                    a >= 0,
                    b >= 0,
            ;
        } else if a >= 0 && b < 0 {
            assert(a * b == -(am * bm) && am * bm >= 0) by (nonlinear_arith)
                requires
                    am == a as int,
                    bm == -(b as int),
                    a >= 0,
                    b < 0,
            ;
        } else if a < 0 && b >= 0 {
            assert(a * b == -(am * bm) && am * bm >= 0) by (nonlinear_arith)
                requires
                    am == -(a as int),
                    bm == b as int,
                    a < 0,
                    b >= 0,
            ;
        } else {
            assert(a * b == am * bm) by (nonlinear_arith)
                requires
                    am == -(a as int),
                    bm == -(b as int),
                    a < 0,
                    b < 0,
            ;
        }
    }
    let q: u128 = mag / 65536u128;
    if neg {
        assert(fx_mul_spec(a as int, b as int) == if mag == 0 { 0int } else { -(q as int) });
        assert(q <= 0x8000000000000000u128);
        (-(q as i128)) as i64
    } else {
        assert(fx_mul_spec(a as int, b as int) == q as int);
        q as i64
    }
}

/// Scales each component of `v` by the fixed-point factor `s`.
pub fn fx_scale_vec(v: Vec3, s: i64) -> (r: Vec3)
    requires
        fx_mul_fits(v.x as int, s as int),
        fx_mul_fits(v.y as int, s as int),
        fx_mul_fits(v.z as int, s as int),
    ensures
        r.x == fx_mul_spec(v.x as int, s as int),
        r.y == fx_mul_spec(v.y as int, s as int),
        r.z == fx_mul_spec(v.z as int, s as int),
{
    Vec3 { x: fx_mul(v.x, s), y: fx_mul(v.y, s), z: fx_mul(v.z, s) }
}

/// A unit-interval fixed-point value mapped to a byte channel, truncating
/// toward zero and saturating at the channel bounds.
pub open spec fn channel_byte_spec(v: int) -> int {
    if v <= 0 {
        0
    } else if v >= SCALE {
        255
    } else {
        (255 * v) / (SCALE as int)
    }
}

/// Converts a fixed-point color channel in the unit interval to a byte.
pub fn color_channel_byte(v: i64) -> (r: u8)
    ensures
        r == channel_byte_spec(v as int),
{
    if v <= 0 {
        0
    } else if v >= SCALE {
        255
    } else {
        let w: u64 = 255u64 * (v as u64);
        (w / 65536u64) as u8
    }
}

/// Converts the four channels of a debug-line color, handed by the
/// engine in the unit interval, to the bytes the line is drawn with.
pub fn color_bytes(red: i64, green: i64, blue: i64, alpha: i64) -> (r: (u8, u8, u8, u8))
    ensures
        r.0 == channel_byte_spec(red as int),
        r.1 == channel_byte_spec(green as int),
        r.2 == channel_byte_spec(blue as int),
        r.3 == channel_byte_spec(alpha as int),
{
    (
        color_channel_byte(red),
        color_channel_byte(green),
        color_channel_byte(blue),
        color_channel_byte(alpha),
    )
}

} // verus!
