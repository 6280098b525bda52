//! Fixed-point geometry shared by the rest of the library.
//!
//! Every length, coordinate and scale factor is an `i64` counting steps of
//! `1 / FIXED_ONE`: the value `FIXED_ONE` stands for one document unit (or a
//! scale of one).
use vstd::prelude::*;

verus! {

/// The fixed-point value that stands for one.
pub const FIXED_ONE: i64 = 65536;

/// `v` can be held by an `i64`.
pub open spec fn fits_i64(v: int) -> bool {
    i64::MIN <= v <= i64::MAX
}

/// Division that rounds toward zero, as machine division does.
pub open spec fn div_toward_zero(a: int, d: int) -> int {
    if a >= 0 {
        a / d
    } else {
        -((-a) / d)
    }
}

/// The product of two fixed-point values, rounded toward zero.
pub open spec fn fixed_mul_spec(a: int, b: int) -> int {
    div_toward_zero(a * b, FIXED_ONE as int)
}

/// Multiplies two fixed-point values.
pub fn fixed_mul(a: i64, b: i64) -> (r: i64)
    requires
        fits_i64(fixed_mul_spec(a as int, b as int)),
    ensures
        r == fixed_mul_spec(a as int, b as int),
{
    let a2: i128 = a as i128;
    let b2: i128 = b as i128;
    assert(-0x4000_0000_0000_0000_0000_0000_0000_0000 <= a2 * b2 <= 0x4000_0000_0000_0000_0000_0000_0000_0000)
        by (nonlinear_arith)
        requires
            -0x8000_0000_0000_0000 <= a2 <= 0x7fff_ffff_ffff_ffff,
            -0x8000_0000_0000_0000 <= b2 <= 0x7fff_ffff_ffff_ffff,
    ;
    let p: i128 = a2 * b2;
    if p >= 0 {
        (p / 65536) as i64
    } else {
        let q: i128 = (-p) / 65536;
        (-q) as i64
    }
}

/// `-v`, except that the most negative value maps to the most positive one.
pub open spec fn neg_sat_spec(v: i64) -> i64 {
    if v == i64::MIN {
        i64::MAX
    } else {
        (-v) as i64
    }
}

/// Negates `v`, saturating where `-v` does not fit.
pub fn neg_sat(v: i64) -> (r: i64)
    ensures
        r == neg_sat_spec(v),
{
    if v == i64::MIN {
        i64::MAX
    } else {
        -v
    }
}

/// Whether the product of two fixed-point values can be held by an `i64`.
pub fn fixed_mul_fits(a: i64, b: i64) -> (r: bool)
    ensures
        r == fits_i64(fixed_mul_spec(a as int, b as int)),
{
    let a2: i128 = a as i128;
    let b2: i128 = b as i128;
    assert(-0x4000_0000_0000_0000_0000_0000_0000_0000 <= a2 * b2 <= 0x4000_0000_0000_0000_0000_0000_0000_0000)
        by (nonlinear_arith)
        requires
            -0x8000_0000_0000_0000 <= a2 <= 0x7fff_ffff_ffff_ffff,
            -0x8000_0000_0000_0000 <= b2 <= 0x7fff_ffff_ffff_ffff,
    ;
    let p: i128 = a2 * b2;
    let q: i128 = if p >= 0 {
        p / 65536
    } else {
        -((-p) / 65536)
    };
    i64::MIN as i128 <= q && q <= i64::MAX as i128
}

/// A point of the plane.
#[derive(Clone, Copy, Debug, PartialEq, Eq, Structural)]
pub struct Point {
    pub x: i64,
    pub y: i64,
}

/// A two-dimensional vector: a size or a pair of scale factors.
#[derive(Clone, Copy, Debug, PartialEq, Eq, Structural)]
pub struct Vec2 {
    pub x: i64,
    pub y: i64,
}

/// A three-dimensional vector: a translation.
#[derive(Clone, Copy, Debug, PartialEq, Eq, Structural)]
pub struct Vec3 {
    pub x: i64,
    pub y: i64,
    pub z: i64,
}

/// One column of a 4x4 matrix.
#[derive(Clone, Copy, Debug, PartialEq, Eq, Structural)]
pub struct Vec4 {
    pub x: i64,
    pub y: i64,
    pub z: i64,
    pub w: i64,
}

/// A 4x4 matrix, stored by columns.
#[derive(Clone, Copy, Debug, PartialEq, Eq, Structural)]
pub struct Mat4 {
    pub x_axis: Vec4,
    pub y_axis: Vec4,
    pub z_axis: Vec4,
    pub w_axis: Vec4,
}

/// A 2D affine transform: `x' = sx*x + kx*y + tx`, `y' = ky*x + sy*y + ty`.
#[derive(Clone, Copy, Debug, PartialEq, Eq, Structural)]
pub struct Transform2 {
    pub sx: i64,
    pub ky: i64,
    pub kx: i64,
    pub sy: i64,
    pub tx: i64,
    pub ty: i64,
}

/// The 4x4 matrix that embeds a 2D affine transform in 3D, leaving the Z axis alone.
pub open spec fn embed_spec(t: Transform2) -> Mat4 {
    Mat4 {
        x_axis: Vec4 { x: t.sx, y: t.ky, z: 0, w: 0 },
        y_axis: Vec4 { x: t.kx, y: t.sy, z: 0, w: 0 },
        z_axis: Vec4 { x: 0, y: 0, z: FIXED_ONE, w: 0 },
        w_axis: Vec4 { x: t.tx, y: t.ty, z: 0, w: FIXED_ONE },
    }
}

impl Transform2 {
    /// The identity transform.
    pub fn identity() -> (r: Transform2)
        ensures
            r == (Transform2 { sx: FIXED_ONE, ky: 0, kx: 0, sy: FIXED_ONE, tx: 0, ty: 0 }),
    {
        Transform2 { sx: FIXED_ONE, ky: 0, kx: 0, sy: FIXED_ONE, tx: 0, ty: 0 }
    }

    /// This transform as a 4x4 matrix with no coupling to the Z axis.
    pub fn to_matrix(&self) -> (r: Mat4)
        ensures
            r == embed_spec(*self),
    {
        Mat4 {
            x_axis: Vec4 { x: self.sx, y: self.ky, z: 0, w: 0 },
            y_axis: Vec4 { x: self.kx, y: self.sy, z: 0, w: 0 },
            z_axis: Vec4 { x: 0, y: 0, z: FIXED_ONE, w: 0 },
            w_axis: Vec4 { x: self.tx, y: self.ty, z: 0, w: FIXED_ONE },
        }
    }
}

} // verus!
