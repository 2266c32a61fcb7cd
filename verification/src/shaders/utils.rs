//! Shared shading arithmetic: channel tinting, diffuse lighting and a
//! periodic pulse, all integer-exact.

use vstd::prelude::*;

verus! {

use crate::fx::FX_ONE;
use crate::fx::clamp_s;
use crate::fx::tdiv;
use crate::fx::lemma_mul_bound;
use crate::fx::lemma_tdiv_le;
use crate::math::Vec3x;

/// A channel shifted by a noise sample: `n` of 128 leaves the base
/// unchanged, the extremes shift it by half the amplitude either way.
pub open spec fn tint_s(base: int, n: int, amp: int) -> int {
    clamp_s(base + tdiv((n - 128) * amp, 128), 0, 255)
}

/// Executable form of `tint_s`.
pub fn tint(base: u8, n: i64, amp: i64) -> (r: u8)
    requires
        0 <= n < 256,
        0 <= amp <= 255,
    ensures
        r as int == tint_s(base as int, n as int, amp as int),
{
    proof {
        lemma_mul_bound((n - 128) as int, amp as int, 128, 255);
    }
    let d: i64 = ((n - 128) * amp) / 128;
    let v: i64 = (base as i64) + d;
    if v < 0 {
        0
    } else if v > 255 {
        255
    } else {
        v as u8
    }
}

/// A channel scaled by a brightness factor clamped to `[0, FX_ONE]`.
pub open spec fn lit_s(base: int, d: int) -> int {
    tdiv(base * clamp_s(d, 0, FX_ONE as int), FX_ONE as int)
}

/// Executable form of `lit_s`.
pub fn lit(base: u8, d: i64) -> (r: u8)
    ensures
        r as int == lit_s(base as int, d as int),
{
    let dd: i64 = if d < 0 {
        0
    } else if d > FX_ONE {
        FX_ONE
    } else {
        d
    };
    proof {
        lemma_mul_bound(base as int, dd as int, 255, FX_ONE as int);
        lemma_tdiv_le((base as int) * (dd as int), FX_ONE as int, 255);
    }
    (((base as i64) * dd) / 65536) as u8
}

/// The diffuse factor of a normal against a light direction with
/// unit-bounded components: the fixed-point dot product, with the normal
/// clamped into unit bounds first so any input is admissible.
pub open spec fn dot_unit_s(n: Vec3x, lx: i64, ly: i64, lz: i64) -> int {
    tdiv(
        clamp_s(n.x as int, -(FX_ONE as int), FX_ONE as int) * lx + clamp_s(
            n.y as int,
            -(FX_ONE as int),
            FX_ONE as int,
        ) * ly + clamp_s(n.z as int, -(FX_ONE as int), FX_ONE as int) * lz,
        FX_ONE as int,
    )
}

/// Executable form of `dot_unit_s`.
pub fn dot_unit(n: &Vec3x, lx: i64, ly: i64, lz: i64) -> (d: i64)
    requires
        -FX_ONE <= lx <= FX_ONE,
        -FX_ONE <= ly <= FX_ONE,
        -FX_ONE <= lz <= FX_ONE,
    ensures
        d == dot_unit_s(*n, lx, ly, lz),
        -3 * FX_ONE <= d <= 3 * FX_ONE,
{
    let cx: i64 = if n.x < -FX_ONE { -FX_ONE } else if n.x > FX_ONE { FX_ONE } else { n.x };
    let cy: i64 = if n.y < -FX_ONE { -FX_ONE } else if n.y > FX_ONE { FX_ONE } else { n.y };
    let cz: i64 = if n.z < -FX_ONE { -FX_ONE } else if n.z > FX_ONE { FX_ONE } else { n.z };
    proof {
        lemma_mul_bound(cx as int, lx as int, FX_ONE as int, FX_ONE as int);
        lemma_mul_bound(cy as int, ly as int, FX_ONE as int, FX_ONE as int);
        lemma_mul_bound(cz as int, lz as int, FX_ONE as int, FX_ONE as int);
        lemma_tdiv_le(
            (cx as int) * (lx as int) + (cy as int) * (ly as int) + (cz as int) * (lz as int),
            FX_ONE as int,
            3 * FX_ONE as int,
        );
    }
    (cx * lx + cy * ly + cz * lz) / FX_ONE
}

/// A triangular pulse of the simulation time with the given period:
/// rises from 0 to 255 over the first half, falls back over the second.
/// Negative times sit at the start of the wave.
pub open spec fn pulse8_s(time: i64, period: i64) -> int {
    let t = if time < 0 {
        0int
    } else {
        time as int
    };
    let ph = clamp_s(tdiv((t % (period as int)) * 256, period as int), 0, 255);
    if ph < 128 {
        2 * ph
    } else {
        2 * (255 - ph)
    }
}

/// Executable form of `pulse8_s`.
pub fn pulse8(time: i64, period: i64) -> (p: i64)
    requires
        1 <= period <= 0x100_0000_0000,
    ensures
        p == pulse8_s(time, period),
        0 <= p <= 255,
{
    let t: i64 = if time < 0 {
        0
    } else {
        time
    };
    let m: i64 = t % period;
    let raw: i64 = (m * 256) / period;
    let ph: i64 = if raw < 0 {
        0
    } else if raw > 255 {
        255
    } else {
        raw
    };
    if ph < 128 {
        2 * ph
    } else {
        2 * (255 - ph)
    }
}

} // verus!
