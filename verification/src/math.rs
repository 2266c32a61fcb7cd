//! Fixed-point vectors and 4x4 matrices.
//!
//! Matrices are row-major — the entry at row `r`, column `c` sits at index
//! `4 * r + c` — and act on column vectors, so a composed transform is
//! written `projection * view * model` and applied left of the vector.
//! A product of two scalars is divided by `FX_ONE` to come back to scale,
//! rounding toward zero.

use vstd::prelude::*;

verus! {

use crate::fx::FX_ONE;
use crate::fx::WORLD_LIM;
use crate::fx::tdiv;
use crate::fx::isqrt_s;
use crate::fx::isqrt128;
use crate::fx::mul_wide;
use crate::fx::lemma_mul_bound;
use crate::fx::lemma_tdiv_bounds;
use crate::fx::lemma_tdiv_le;

/// Magnitude bound on the components a vector may bring into
/// `vec3_normalize`: squares of larger values would leave `i128`.
pub const NORM_IN_LIM: i64 = 0x4000_0000_0000_0000;

/// Whether a scalar is small enough to be a well-formed coordinate.
pub open spec fn fits_world(v: int) -> bool {
    -(WORLD_LIM as int) <= v <= WORLD_LIM as int
}

/// A fixed-point 3-vector.
#[derive(Clone, Copy, Debug, PartialEq, Eq, Structural)]
pub struct Vec3x {
    pub x: i64,
    pub y: i64,
    pub z: i64,
}

/// A fixed-point homogeneous 4-vector.
#[derive(Clone, Copy, Debug, PartialEq, Eq, Structural)]
pub struct Vec4x {
    pub x: i64,
    pub y: i64,
    pub z: i64,
    pub w: i64,
}

/// A fixed-point 4x4 matrix, row-major.
#[derive(Clone, Copy, Debug)]
pub struct Mat4x {
    pub m: [i64; 16],
}

impl Vec3x {
    /// A vector from its three components.
    #[inline]
    pub fn new(x: i64, y: i64, z: i64) -> (v: Vec3x)
        ensures
            v == (Vec3x { x, y, z }),
    {
        Vec3x { x, y, z }
    }

    /// The zero vector.
    #[inline]
    pub fn zero() -> (v: Vec3x)
        ensures
            v == (Vec3x { x: 0i64, y: 0i64, z: 0i64 }),
    {
        Vec3x { x: 0, y: 0, z: 0 }
    }

    /// All components within the coordinate bound.
    pub open spec fn wf(self) -> bool {
        fits_world(self.x as int) && fits_world(self.y as int) && fits_world(self.z as int)
    }

    /// Runtime check of `wf`, for callers that receive unchecked values.
    pub fn is_wf(&self) -> (b: bool)
        ensures
            b == self.wf(),
    {
        -WORLD_LIM <= self.x && self.x <= WORLD_LIM && -WORLD_LIM <= self.y && self.y <= WORLD_LIM
            && -WORLD_LIM <= self.z && self.z <= WORLD_LIM
    }
}

impl Vec4x {
    /// All components within the coordinate bound.
    pub open spec fn wf(self) -> bool {
        fits_world(self.x as int) && fits_world(self.y as int) && fits_world(self.z as int)
            && fits_world(self.w as int)
    }
}

/// A position as a homogeneous vector: the fourth component is one.
pub open spec fn point4_s(p: Vec3x) -> Vec4x {
    Vec4x { x: p.x, y: p.y, z: p.z, w: FX_ONE }
}

/// A direction as a homogeneous vector: the fourth component is zero, so
/// a matrix moves it without translating it.
pub open spec fn dir4_s(n: Vec3x) -> Vec4x {
    Vec4x { x: n.x, y: n.y, z: n.z, w: 0i64 }
}

/// Executable form of `point4_s`.
#[inline]
pub fn point4(p: &Vec3x) -> (v: Vec4x)
    ensures
        v == point4_s(*p),
{
    Vec4x { x: p.x, y: p.y, z: p.z, w: FX_ONE }
}

/// Executable form of `dir4_s`.
#[inline]
pub fn dir4(n: &Vec3x) -> (v: Vec4x)
    ensures
        v == dir4_s(*n),
{
    Vec4x { x: n.x, y: n.y, z: n.z, w: 0 }
}

impl Mat4x {
    /// The entry at row `r`, column `c`.
    pub open spec fn ent(self, r: int, c: int) -> int {
        self.m@[4 * r + c] as int
    }

    /// All entries within the coordinate bound.
    pub open spec fn wf(self) -> bool {
        forall|k: int| 0 <= k < 16 ==> fits_world(#[trigger] self.m@[k] as int)
    }

    /// Runtime check of `wf`, for callers that receive unchecked values.
    pub fn is_wf(&self) -> (b: bool)
        ensures
            b == self.wf(),
    {
        let mut k: usize = 0;
        while k < 16
            invariant
                k <= 16,
                forall|j: int| 0 <= j < k ==> fits_world(#[trigger] self.m@[j] as int),
            decreases 16 - k,
        {
            if self.m[k] < -WORLD_LIM || self.m[k] > WORLD_LIM {
                return false;
            }
            k = k + 1;
        }
        true
    }

    /// The identity transform.
    pub fn identity() -> (r: Mat4x)
        ensures
            r.wf(),
            forall|i: int, j: int|
                0 <= i < 4 && 0 <= j < 4 ==> r.ent(i, j) == if i == j {
                    FX_ONE as int
                } else {
                    0int
                },
    {
        let one: i64 = FX_ONE;
        Mat4x {
            m: [
                one, 0, 0, 0,
                0, one, 0, 0,
                0, 0, one, 0,
                0, 0, 0, one,
            ],
        }
    }
}

/// The exact row-by-column sum behind entry `(r, c)` of a product.
pub open spec fn mul_dot_s(a: Mat4x, b: Mat4x, r: int, c: int) -> int {
    a.ent(r, 0) * b.ent(0, c) + a.ent(r, 1) * b.ent(1, c) + a.ent(r, 2) * b.ent(2, c) + a.ent(
        r,
        3,
    ) * b.ent(3, c)
}

/// Entry `(r, c)` of a matrix product, brought back to scale.
pub open spec fn mul_ent_s(a: Mat4x, b: Mat4x, r: int, c: int) -> int {
    tdiv(mul_dot_s(a, b, r, c), FX_ONE as int)
}

/// Whether every entry of the product stays within the coordinate bound.
pub open spec fn mul_ok_s(a: Mat4x, b: Mat4x) -> bool {
    forall|r: int, c: int| 0 <= r < 4 && 0 <= c < 4 ==> fits_world(#[trigger] mul_ent_s(a, b, r, c))
}

/// The product matrix, meaningful when `mul_ok_s` holds.
pub open spec fn mul_v_s(a: Mat4x, b: Mat4x) -> Mat4x {
    Mat4x {
        m: [
            mul_ent_s(a, b, 0, 0) as i64,
            mul_ent_s(a, b, 0, 1) as i64,
            mul_ent_s(a, b, 0, 2) as i64,
            mul_ent_s(a, b, 0, 3) as i64,
            mul_ent_s(a, b, 1, 0) as i64,
            mul_ent_s(a, b, 1, 1) as i64,
            mul_ent_s(a, b, 1, 2) as i64,
            mul_ent_s(a, b, 1, 3) as i64,
            mul_ent_s(a, b, 2, 0) as i64,
            mul_ent_s(a, b, 2, 1) as i64,
            mul_ent_s(a, b, 2, 2) as i64,
            mul_ent_s(a, b, 2, 3) as i64,
            mul_ent_s(a, b, 3, 0) as i64,
            mul_ent_s(a, b, 3, 1) as i64,
            mul_ent_s(a, b, 3, 2) as i64,
            mul_ent_s(a, b, 3, 3) as i64,
        ],
    }
}

/// One entry of the product, or nothing when it leaves the bound.
fn mul_ent(a: &Mat4x, b: &Mat4x, r: usize, c: usize) -> (res: Option<i64>)
    requires
        a.wf(),
        b.wf(),
        r < 4,
        c < 4,
    ensures
        fits_world(mul_ent_s(*a, *b, r as int, c as int)) ==> res == Some(
            mul_ent_s(*a, *b, r as int, c as int) as i64,
        ),
        !fits_world(mul_ent_s(*a, *b, r as int, c as int)) ==> res is None,
{
    let p0: i128 = mul_wide(a.m[4 * r], b.m[c]);
    let p1: i128 = mul_wide(a.m[4 * r + 1], b.m[4 + c]);
    let p2: i128 = mul_wide(a.m[4 * r + 2], b.m[8 + c]);
    let p3: i128 = mul_wide(a.m[4 * r + 3], b.m[12 + c]);
    proof {
        lemma_mul_bound(a.ent(r as int, 0), b.ent(0, c as int), WORLD_LIM as int, WORLD_LIM as int);
        lemma_mul_bound(a.ent(r as int, 1), b.ent(1, c as int), WORLD_LIM as int, WORLD_LIM as int);
        lemma_mul_bound(a.ent(r as int, 2), b.ent(2, c as int), WORLD_LIM as int, WORLD_LIM as int);
        lemma_mul_bound(a.ent(r as int, 3), b.ent(3, c as int), WORLD_LIM as int, WORLD_LIM as int);
    }
    let s: i128 = p0 + p1 + p2 + p3;
    let q: i128 = s / (FX_ONE as i128);
    if q < -WORLD_LIM as i128 || q > WORLD_LIM as i128 {
        None
    } else {
        Some(q as i64)
    }
}

/// The matrix product, or nothing when some entry of the true product
/// leaves the coordinate bound.
pub fn mat4_mul(a: &Mat4x, b: &Mat4x) -> (r: Option<Mat4x>)
    requires
        a.wf(),
        b.wf(),
    ensures
        mul_ok_s(*a, *b) ==> r == Some(mul_v_s(*a, *b)),
        !mul_ok_s(*a, *b) ==> r is None,
        r is Some ==> r->Some_0.wf(),
{
    let e00 = match mul_ent(a, b, 0, 0) { Some(v) => v, None => { return None; } };
    let e01 = match mul_ent(a, b, 0, 1) { Some(v) => v, None => { return None; } };
    let e02 = match mul_ent(a, b, 0, 2) { Some(v) => v, None => { return None; } };
    let e03 = match mul_ent(a, b, 0, 3) { Some(v) => v, None => { return None; } };
    let e10 = match mul_ent(a, b, 1, 0) { Some(v) => v, None => { return None; } };
    let e11 = match mul_ent(a, b, 1, 1) { Some(v) => v, None => { return None; } };
    let e12 = match mul_ent(a, b, 1, 2) { Some(v) => v, None => { return None; } };
    let e13 = match mul_ent(a, b, 1, 3) { Some(v) => v, None => { return None; } };
    let e20 = match mul_ent(a, b, 2, 0) { Some(v) => v, None => { return None; } };
    let e21 = match mul_ent(a, b, 2, 1) { Some(v) => v, None => { return None; } };
    let e22 = match mul_ent(a, b, 2, 2) { Some(v) => v, None => { return None; } };
    let e23 = match mul_ent(a, b, 2, 3) { Some(v) => v, None => { return None; } };
    let e30 = match mul_ent(a, b, 3, 0) { Some(v) => v, None => { return None; } };
    let e31 = match mul_ent(a, b, 3, 1) { Some(v) => v, None => { return None; } };
    let e32 = match mul_ent(a, b, 3, 2) { Some(v) => v, None => { return None; } };
    let e33 = match mul_ent(a, b, 3, 3) { Some(v) => v, None => { return None; } };
    let out = Mat4x {
        m: [e00, e01, e02, e03, e10, e11, e12, e13, e20, e21, e22, e23, e30, e31, e32, e33],
    };
    proof {
        assert(out.m@ =~= mul_v_s(*a, *b).m@);
    }
    Some(out)
}

/// The exact row-by-column sum behind component `i` of `m * v`.
pub open spec fn row_dot_s(m: Mat4x, v: Vec4x, i: int) -> int {
    m.ent(i, 0) * v.x + m.ent(i, 1) * v.y + m.ent(i, 2) * v.z + m.ent(i, 3) * v.w
}

/// Component `i` of `m * v`, brought back to scale.
pub open spec fn apply_comp_s(m: Mat4x, v: Vec4x, i: int) -> int {
    tdiv(row_dot_s(m, v, i), FX_ONE as int)
}

/// Whether every component of `m * v` stays within the coordinate bound.
pub open spec fn apply_ok_s(m: Mat4x, v: Vec4x) -> bool {
    forall|i: int| 0 <= i < 4 ==> fits_world(#[trigger] apply_comp_s(m, v, i))
}

/// The transformed vector, meaningful when `apply_ok_s` holds.
pub open spec fn apply_v_s(m: Mat4x, v: Vec4x) -> Vec4x {
    Vec4x {
        x: apply_comp_s(m, v, 0) as i64,
        y: apply_comp_s(m, v, 1) as i64,
        z: apply_comp_s(m, v, 2) as i64,
        w: apply_comp_s(m, v, 3) as i64,
    }
}

/// One component of `m * v`, or nothing when it leaves the bound.
fn apply_comp(m: &Mat4x, v: &Vec4x, i: usize) -> (res: Option<i64>)
    requires
        m.wf(),
        v.wf(),
        i < 4,
    ensures
        fits_world(apply_comp_s(*m, *v, i as int)) ==> res == Some(
            apply_comp_s(*m, *v, i as int) as i64,
        ),
        !fits_world(apply_comp_s(*m, *v, i as int)) ==> res is None,
{
    let p0: i128 = mul_wide(m.m[4 * i], v.x);
    let p1: i128 = mul_wide(m.m[4 * i + 1], v.y);
    let p2: i128 = mul_wide(m.m[4 * i + 2], v.z);
    let p3: i128 = mul_wide(m.m[4 * i + 3], v.w);
    proof {
        lemma_mul_bound(m.ent(i as int, 0), v.x as int, WORLD_LIM as int, WORLD_LIM as int);
        lemma_mul_bound(m.ent(i as int, 1), v.y as int, WORLD_LIM as int, WORLD_LIM as int);
        lemma_mul_bound(m.ent(i as int, 2), v.z as int, WORLD_LIM as int, WORLD_LIM as int);
        lemma_mul_bound(m.ent(i as int, 3), v.w as int, WORLD_LIM as int, WORLD_LIM as int);
    }
    let s: i128 = p0 + p1 + p2 + p3;
    let q: i128 = s / (FX_ONE as i128);
    if q < -WORLD_LIM as i128 || q > WORLD_LIM as i128 {
        None
    } else {
        Some(q as i64)
    }
}

/// A matrix applied to a homogeneous vector, or nothing when some
/// component of the true image leaves the coordinate bound.
pub fn mat4_apply(m: &Mat4x, v: &Vec4x) -> (r: Option<Vec4x>)
    requires
        m.wf(),
        v.wf(),
    ensures
        apply_ok_s(*m, *v) ==> r == Some(apply_v_s(*m, *v)),
        !apply_ok_s(*m, *v) ==> r is None,
        r is Some ==> r->Some_0.wf(),
{
    let x = match apply_comp(m, v, 0) { Some(v) => v, None => { return None; } };
    let y = match apply_comp(m, v, 1) { Some(v) => v, None => { return None; } };
    let z = match apply_comp(m, v, 2) { Some(v) => v, None => { return None; } };
    let w = match apply_comp(m, v, 3) { Some(v) => v, None => { return None; } };
    Some(Vec4x { x, y, z, w })
}

/// The exact squared length of a vector.
pub open spec fn norm2_s(v: Vec3x) -> int {
    v.x * v.x + v.y * v.y + v.z * v.z
}

/// The unit vector a renormalization produces: each component is scaled
/// by `FX_ONE` and divided by the integer square root of the squared
/// length, rounding toward zero. The zero vector stays zero.
pub open spec fn normalize_s(v: Vec3x) -> Vec3x {
    let m = isqrt_s(norm2_s(v));
    if m == 0 {
        Vec3x { x: 0i64, y: 0i64, z: 0i64 }
    } else {
        Vec3x {
            x: tdiv(v.x * FX_ONE, m) as i64,
            y: tdiv(v.y * FX_ONE, m) as i64,
            z: tdiv(v.z * FX_ONE, m) as i64,
        }
    }
}

/// Renormalization of a vector. The result's components never exceed one
/// unit in magnitude.
pub fn vec3_normalize(v: &Vec3x) -> (r: Vec3x)
    requires
        -NORM_IN_LIM <= v.x <= NORM_IN_LIM,
        -NORM_IN_LIM <= v.y <= NORM_IN_LIM,
        -NORM_IN_LIM <= v.z <= NORM_IN_LIM,
    ensures
        r == normalize_s(*v),
        -(FX_ONE as int) <= r.x as int <= FX_ONE as int,
        -(FX_ONE as int) <= r.y as int <= FX_ONE as int,
        -(FX_ONE as int) <= r.z as int <= FX_ONE as int,
{
    let xx: i128 = mul_wide(v.x, v.x);
    let yy: i128 = mul_wide(v.y, v.y);
    let zz: i128 = mul_wide(v.z, v.z);
    proof {
        lemma_mul_bound(v.x as int, v.x as int, NORM_IN_LIM as int, NORM_IN_LIM as int);
        lemma_mul_bound(v.y as int, v.y as int, NORM_IN_LIM as int, NORM_IN_LIM as int);
        lemma_mul_bound(v.z as int, v.z as int, NORM_IN_LIM as int, NORM_IN_LIM as int);
        assert(v.x * v.x >= 0 && v.y * v.y >= 0 && v.z * v.z >= 0) by (nonlinear_arith);
    }
    let n2: i128 = xx + yy + zz;
    let m: u128 = isqrt128(n2 as u128);
    if m == 0 {
        Vec3x { x: 0, y: 0, z: 0 }
    } else {
        proof {
            assert(m < 0x8000_0000_0000_0000u128) by (nonlinear_arith)
                requires
                    m * m <= n2 as int,
                    n2 < 0x4000_0000_0000_0000_0000_0000_0000_0000i128,
            ;
            lemma_normalize_comp_bound(v.x as int, n2 as int, m as int);
            lemma_normalize_comp_bound(v.y as int, n2 as int, m as int);
            lemma_normalize_comp_bound(v.z as int, n2 as int, m as int);
        }
        let rx: i128 = mul_wide(v.x, FX_ONE) / (m as i128);
        let ry: i128 = mul_wide(v.y, FX_ONE) / (m as i128);
        let rz: i128 = mul_wide(v.z, FX_ONE) / (m as i128);
        Vec3x { x: rx as i64, y: ry as i64, z: rz as i64 }
    }
}

/// A component divided by the integer square root of a sum of squares it
/// belongs to never exceeds one unit.
proof fn lemma_normalize_comp_bound(x: int, n2: int, m: int)
    requires
        x * x <= n2,
        m > 0,
        m * m <= n2,
        n2 < (m + 1) * (m + 1),
    ensures
        -m <= x <= m,
        -(FX_ONE as int) <= tdiv(x * FX_ONE, m) <= FX_ONE as int,
{
    assert(-m <= x <= m) by (nonlinear_arith)
        requires
            x * x <= n2,
            m > 0,
            n2 < (m + 1) * (m + 1),
    ;
    assert(-(FX_ONE * m) <= x * FX_ONE <= FX_ONE * m) by (nonlinear_arith)
        requires
            -m <= x <= m,
            m > 0,
    ;
    lemma_tdiv_le(x * FX_ONE, m, FX_ONE as int);
}

} // verus!
