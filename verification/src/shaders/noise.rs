//! Integer lattice noise.
//!
//! A coordinate is mapped to a lattice cell at a chosen frequency and the
//! cell is hashed to a byte-range sample. The hash mixes its inputs with
//! wrapping multiplications and a shifted exclusive-or, so nearby cells
//! get unrelated samples.

use vstd::prelude::*;

verus! {

use vstd::wrapping::i32_specs;
use crate::fx::FX_ONE;
use crate::fx::clamp_s;
use crate::fx::tdiv;
use crate::fx::mul_wide;
use crate::fx::clamp128;
use crate::math::Vec3x;

/// The pseudo-random byte assigned to a lattice cell.
pub open spec fn hash_s(x: i32, y: i32, z: i32) -> i32 {
    let a = i32_specs::wrapping_mul(x, 374761393);
    let b = i32_specs::wrapping_mul(y, 668265263);
    let c = i32_specs::wrapping_mul(z, 1274126177);
    let n = i32_specs::wrapping_add(i32_specs::wrapping_add(a, b), c);
    let m = i32_specs::wrapping_mul(n ^ (n >> 13u32), 1274126177);
    m & 0xff
}

/// A pseudo-random byte from integer lattice coordinates.
#[inline]
pub fn hash(x: i32, y: i32, z: i32) -> (r: i32)
    ensures
        r == hash_s(x, y, z),
        0 <= r < 256,
{
    let n: i32 = x.wrapping_mul(374761393).wrapping_add(y.wrapping_mul(668265263)).wrapping_add(
        z.wrapping_mul(1274126177),
    );
    let m: i32 = (n ^ (n >> 13u32)).wrapping_mul(1274126177);
    let r: i32 = m & 0xff;
    proof {
        assert(0 <= (m & 0xffi32) < 256) by (bit_vector);
    }
    r
}

/// The lattice cell a fixed-point coordinate falls in at frequency
/// `freq`, clamped so the cell always fits a machine integer.
pub open spec fn cell_s(v: i64, freq: i64) -> int {
    clamp_s(tdiv(v * freq, FX_ONE as int), -0x4000_0000, 0x4000_0000)
}

/// Executable form of `cell_s`.
pub fn cell(v: i64, freq: i64) -> (c: i32)
    requires
        1 <= freq <= 1024,
    ensures
        c as int == cell_s(v, freq),
{
    let w: i128 = mul_wide(v, freq);
    let q: i128 = w / (FX_ONE as i128);
    clamp128(q, -0x4000_0000, 0x4000_0000) as i32
}

/// A byte-range noise sample of a fixed-point vector at frequency
/// `freq`: the hash of the vector's lattice cell.
pub open spec fn noise8_s(p: Vec3x, freq: i64) -> int {
    hash_s(cell_s(p.x, freq) as i32, cell_s(p.y, freq) as i32, cell_s(p.z, freq) as i32) as int
}

/// Executable form of `noise8_s`.
pub fn noise8(p: &Vec3x, freq: i64) -> (n: i64)
    requires
        1 <= freq <= 1024,
    ensures
        n == noise8_s(*p, freq),
        0 <= n < 256,
{
    hash(cell(p.x, freq), cell(p.y, freq), cell(p.z, freq)) as i64
}

} // verus!
