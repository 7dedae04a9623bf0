//! Integer affine transforms and the current transform of a frame.
use vstd::prelude::*;

use crate::geometry::{fits_i64, Point, Vector};

verus! {

/// A 2D affine matrix in row-vector form: the point `(x, y)` maps to
/// `(x * m11 + y * m21 + m31, x * m12 + y * m22 + m32)`.
#[derive(Clone, Copy, Debug, PartialEq, Eq, Structural)]
pub struct Affine {
    pub m11: i64,
    pub m12: i64,
    pub m21: i64,
    pub m22: i64,
    pub m31: i64,
    pub m32: i64,
}

pub open spec fn is_identity_matrix(a: Affine) -> bool {
    a.m11 == 1 && a.m12 == 0 && a.m21 == 0 && a.m22 == 1 && a.m31 == 0 && a.m32 == 0
}

/// First coordinate of the image of the point `(x, y)`.
pub open spec fn map_x(a: Affine, x: int, y: int) -> int {
    x * a.m11 + y * a.m21 + a.m31
}

/// Second coordinate of the image of the point `(x, y)`.
pub open spec fn map_y(a: Affine, x: int, y: int) -> int {
    x * a.m12 + y * a.m22 + a.m32
}

/// First coordinate of the image of the vector `(x, y)` (no translation).
pub open spec fn lin_x(a: Affine, x: int, y: int) -> int {
    x * a.m11 + y * a.m21
}

/// Second coordinate of the image of the vector `(x, y)` (no translation).
pub open spec fn lin_y(a: Affine, x: int, y: int) -> int {
    x * a.m12 + y * a.m22
}

/// The image of `p` has coordinates that fit in `i64`.
pub open spec fn maps_point(a: Affine, p: Point) -> bool {
    fits_i64(map_x(a, p.x as int, p.y as int)) && fits_i64(map_y(a, p.x as int, p.y as int))
}

pub open spec fn point_image(a: Affine, p: Point) -> Point {
    Point {
        x: map_x(a, p.x as int, p.y as int) as i64,
        y: map_y(a, p.x as int, p.y as int) as i64,
    }
}

/// The image of `v` has coordinates that fit in `i64`.
pub open spec fn maps_vector(a: Affine, v: Vector) -> bool {
    fits_i64(lin_x(a, v.x as int, v.y as int)) && fits_i64(lin_y(a, v.x as int, v.y as int))
}

pub open spec fn vector_image(a: Affine, v: Vector) -> Vector {
    Vector {
        x: lin_x(a, v.x as int, v.y as int) as i64,
        y: lin_y(a, v.x as int, v.y as int) as i64,
    }
}

/// Cosine of `k` quarter turns.
pub open spec fn quarter_cos(k: int) -> int {
    if k % 4 == 0 {
        1
    } else if k % 4 == 2 {
        -1
    } else {
        0
    }
}

/// Sine of `k` quarter turns.
pub open spec fn quarter_sin(k: int) -> int {
    if k % 4 == 1 {
        1
    } else if k % 4 == 3 {
        -1
    } else {
        0
    }
}

/// The coefficients of translating by `v` and then applying `a` fit in `i64`.
pub open spec fn pre_translation_fits(a: Affine, v: Vector) -> bool {
    fits_i64(map_x(a, v.x as int, v.y as int)) && fits_i64(map_y(a, v.x as int, v.y as int))
}

/// Translating by `v` and then applying `a`.
pub open spec fn pre_translated(a: Affine, v: Vector) -> Affine {
    Affine {
        m11: a.m11,
        m12: a.m12,
        m21: a.m21,
        m22: a.m22,
        m31: map_x(a, v.x as int, v.y as int) as i64,
        m32: map_y(a, v.x as int, v.y as int) as i64,
    }
}

/// The coefficients of scaling uniformly by `k` and then applying `a` fit
/// in `i64`.
pub open spec fn pre_scale_fits(a: Affine, k: int) -> bool {
    fits_i64(k * a.m11) && fits_i64(k * a.m12) && fits_i64(k * a.m21) && fits_i64(k * a.m22)
}

/// Scaling uniformly by `k` and then applying `a`.
pub open spec fn pre_scaled(a: Affine, k: int) -> Affine {
    Affine {
        m11: (k * a.m11) as i64,
        m12: (k * a.m12) as i64,
        m21: (k * a.m21) as i64,
        m22: (k * a.m22) as i64,
        m31: a.m31,
        m32: a.m32,
    }
}

/// The coefficients of rotating by `k` quarter turns and then applying `a`.
pub open spec fn rot_m11(a: Affine, k: int) -> int {
    quarter_cos(k) * a.m11 + quarter_sin(k) * a.m21
}

pub open spec fn rot_m12(a: Affine, k: int) -> int {
    quarter_cos(k) * a.m12 + quarter_sin(k) * a.m22
}

pub open spec fn rot_m21(a: Affine, k: int) -> int {
    -quarter_sin(k) * a.m11 + quarter_cos(k) * a.m21
}

pub open spec fn rot_m22(a: Affine, k: int) -> int {
    -quarter_sin(k) * a.m12 + quarter_cos(k) * a.m22
}

/// The coefficients of rotating by `k` quarter turns and then applying `a`
/// fit in `i64`.
pub open spec fn pre_rotation_fits(a: Affine, k: int) -> bool {
    fits_i64(rot_m11(a, k)) && fits_i64(rot_m12(a, k)) && fits_i64(rot_m21(a, k)) && fits_i64(
        rot_m22(a, k),
    )
}

/// Rotating by `k` quarter turns and then applying `a`.
pub open spec fn pre_rotated(a: Affine, k: int) -> Affine {
    Affine {
        m11: rot_m11(a, k) as i64,
        m12: rot_m12(a, k) as i64,
        m21: rot_m21(a, k) as i64,
        m22: rot_m22(a, k) as i64,
        m31: a.m31,
        m32: a.m32,
    }
}

proof fn lemma_product_bound(a: int, b: int) by (nonlinear_arith)
    requires
        fits_i64(a),
        fits_i64(b),
    ensures
        -0x4000_0000_0000_0000_0000_0000_0000_0000 <= a * b <= 0x4000_0000_0000_0000_0000_0000_0000_0000,
{
}

/// `a * b + c * d + e`, when it fits in `i64`.
fn combine(a: i64, b: i64, c: i64, d: i64, e: i64) -> (r: Option<i64>)
    ensures
        r is Some <==> fits_i64(a * b + c * d + e),
        r matches Some(v) ==> v == a * b + c * d + e,
{
    proof {
        lemma_product_bound(a as int, b as int);
        lemma_product_bound(c as int, d as int);
    }
    let p = (a as i128) * (b as i128);
    let q = (c as i128) * (d as i128);
    let s = match p.checked_add(q) {
        Some(s) => s,
        None => return None,
    };
    let t = match s.checked_add(e as i128) {
        Some(t) => t,
        None => return None,
    };
    if t < i64::MIN as i128 || t > i64::MAX as i128 {
        None
    } else {
        Some(t as i64)
    }
}

impl Affine {
    pub fn identity() -> (r: Affine)
        ensures
            is_identity_matrix(r),
    {
        Affine { m11: 1, m12: 0, m21: 0, m22: 1, m31: 0, m32: 0 }
    }

    /// The image of a point, or `None` when a coordinate leaves the `i64` range.
    pub fn transform_point(&self, p: Point) -> (r: Option<Point>)
        ensures
            r is Some <==> maps_point(*self, p),
            r matches Some(q) ==> q == point_image(*self, p),
    {
        let x = combine(p.x, self.m11, p.y, self.m21, self.m31);
        let y = combine(p.x, self.m12, p.y, self.m22, self.m32);
        match (x, y) {
            (Some(x), Some(y)) => Some(Point { x, y }),
            _ => None,
        }
    }

    /// The image of a vector, or `None` when a coordinate leaves the `i64` range.
    pub fn transform_vector(&self, v: Vector) -> (r: Option<Vector>)
        ensures
            r is Some <==> maps_vector(*self, v),
            r matches Some(w) ==> w == vector_image(*self, v),
    {
        let x = combine(v.x, self.m11, v.y, self.m21, 0);
        let y = combine(v.x, self.m12, v.y, self.m22, 0);
        match (x, y) {
            (Some(x), Some(y)) => Some(Vector { x, y }),
            _ => None,
        }
    }

    /// Translates by `v` before this transform.
    pub fn pre_translate(&self, v: Vector) -> (r: Affine)
        requires
            pre_translation_fits(*self, v),
        ensures
            r == pre_translated(*self, v),
    {
        let m31 = combine(v.x, self.m11, v.y, self.m21, self.m31).unwrap();
        let m32 = combine(v.x, self.m12, v.y, self.m22, self.m32).unwrap();
        Affine { m11: self.m11, m12: self.m12, m21: self.m21, m22: self.m22, m31, m32 }
    }

    /// Scales uniformly by `k` before this transform.
    pub fn pre_scale(&self, k: i64) -> (r: Affine)
        requires
            pre_scale_fits(*self, k as int),
        ensures
            r == pre_scaled(*self, k as int),
    {
        let m11 = combine(k, self.m11, 0, 0, 0).unwrap();
        let m12 = combine(k, self.m12, 0, 0, 0).unwrap();
        let m21 = combine(k, self.m21, 0, 0, 0).unwrap();
        let m22 = combine(k, self.m22, 0, 0, 0).unwrap();
        Affine { m11, m12, m21, m22, m31: self.m31, m32: self.m32 }
    }

    /// Rotates by `quarter_turns` quarter turns, from the x axis towards the
    /// y axis, before this transform.
    pub fn pre_rotate(&self, quarter_turns: u32) -> (r: Affine)
        requires
            pre_rotation_fits(*self, quarter_turns as int),
        ensures
            r == pre_rotated(*self, quarter_turns as int),
    {
        let k = quarter_turns % 4;
        let c: i64 = if k == 0 {
            1
        } else if k == 2 {
            -1
        } else {
            0
        };
        let s: i64 = if k == 1 {
            1
        } else if k == 3 {
            -1
        } else {
            0
        };
        let m11 = combine(c, self.m11, s, self.m21, 0).unwrap();
        let m12 = combine(c, self.m12, s, self.m22, 0).unwrap();
        let m21 = combine(-s, self.m11, c, self.m21, 0).unwrap();
        let m22 = combine(-s, self.m12, c, self.m22, 0).unwrap();
        Affine { m11, m12, m21, m22, m31: self.m31, m32: self.m32 }
    }
}

/// Translating by `v` before the identity moves every point by `v`.
pub proof fn lemma_translation_moves_points(id: Affine, v: Vector, p: Point) by (nonlinear_arith)
    requires
        is_identity_matrix(id),
    ensures
        pre_translation_fits(id, v),
        map_x(pre_translated(id, v), p.x as int, p.y as int) == p.x + v.x,
        map_y(pre_translated(id, v), p.x as int, p.y as int) == p.y + v.y,
{
}

/// A quarter turn before the identity maps `(x, y)` to `(-y, x)`.
pub proof fn lemma_quarter_turn(id: Affine, p: Point) by (nonlinear_arith)
    requires
        is_identity_matrix(id),
    ensures
        pre_rotation_fits(id, 1),
        map_x(pre_rotated(id, 1), p.x as int, p.y as int) == -p.y,
        map_y(pre_rotated(id, 1), p.x as int, p.y as int) == p.x,
{
}

/// A matrix together with a flag that records that it is the identity, so
/// that drawing can skip applying it.
#[derive(Clone, Copy, Debug)]
pub struct Transform {
    raw: Affine,
    is_identity: bool,
}

impl Transform {
    #[verifier::type_invariant]
    spec fn flag_is_sound(self) -> bool {
        self.is_identity ==> is_identity_matrix(self.raw)
    }

    pub closed spec fn matrix(self) -> Affine {
        self.raw
    }

    pub closed spec fn flagged_identity(self) -> bool {
        self.is_identity
    }

    pub fn identity() -> (r: Transform)
        ensures
            is_identity_matrix(r.matrix()),
            r.flagged_identity(),
    {
        Transform { raw: Affine::identity(), is_identity: true }
    }

    /// A transform that is not marked as the identity, whatever its matrix.
    pub fn from_matrix(raw: Affine) -> (r: Transform)
        ensures
            r.matrix() == raw,
            !r.flagged_identity(),
    {
        Transform { raw, is_identity: false }
    }

    pub fn raw(&self) -> (r: Affine)
        ensures
            r == self.matrix(),
    {
        self.raw
    }

    pub fn is_identity(&self) -> (r: bool)
        ensures
            r == self.flagged_identity(),
            r ==> is_identity_matrix(self.matrix()),
    {
        proof {
            use_type_invariant(self);
        }
        self.is_identity
    }
}

} // verus!
