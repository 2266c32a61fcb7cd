//! The rasterization pipeline.
//!
//! A render call transforms every vertex once — model matrix for world
//! position and normal, composed model-view-projection for clip position,
//! perspective divide, screen mapping with the vertical axis flipped —
//! and then fills each front-facing triangle: barycentric coverage over
//! the clamped bounding box, attribute interpolation, a shader call per
//! covered pixel, and one of three write policies (standard depth test,
//! depth-biased test, overlay blend).
//!
//! Every stage has an exact fixed-point specification; the contract of
//! each render call says the framebuffer afterwards equals the fold of
//! those specifications over the mesh.

use vstd::prelude::*;

verus! {

use crate::color::Color;
use crate::framebuffer::FbView;
use crate::framebuffer::Framebuffer;
use crate::framebuffer::MAX_DIM;
use crate::framebuffer::blend_pixel_s;
use crate::framebuffer::set_pixel_s;
use crate::fx::FX_ONE;
use crate::fx::WORLD_LIM;
use crate::fx::clamp_s;
use crate::fx::clamp128;
use crate::fx::lemma_mul_bound;
use crate::fx::mul_wide;
use crate::fx::tdiv;
use crate::fx::isqrt_s;
use crate::fx::tdiv_any;
use crate::fx::lemma_tdiv_bounds;
use crate::math::Mat4x;
use crate::math::NORM_IN_LIM;
use crate::math::Vec3x;
use crate::math::apply_ok_s;
use crate::math::apply_v_s;
use crate::math::dir4;
use crate::math::dir4_s;
use crate::math::fits_world;
use crate::math::mat4_apply;
use crate::math::mat4_mul;
use crate::math::mul_ok_s;
use crate::math::mul_v_s;
use crate::math::normalize_s;
use crate::math::point4;
use crate::math::point4_s;
use crate::math::vec3_normalize;
use crate::mesh::ObjMesh;
use crate::mesh::Vertex;
use crate::shaders::planet_shaders::PlanetShader;

/// Magnitude bound on the screen coordinates of a vertex the rasterizer
/// accepts: four thousand ninety-six pixels in fixed-point. A transform
/// whose screen position lands outside is marked invalid, the way a
/// floating-point pipeline drops positions that blow up to infinity.
/// A consequence for extreme close-range geometry: a triangle with a
/// vertex mapped beyond this bound is dropped whole, even where its
/// body would have crossed the viewport; keep such geometry on a
/// nearer projection, as the close-range ship pass does.
pub const SCREEN_LIM: i64 = 0x1000_0000;

/// Half a pixel, for sampling at pixel centers.
pub const HALF_PIXEL: i64 = 32768;

/// A vertex after the transform stage: fixed-point screen position,
/// normalized-device depth, world position and unit world normal.
/// `valid` is false when the perspective divide was degenerate or a
/// coordinate left its range; triangles touching such a vertex are
/// rejected. Rebuilt for every vertex on every render call.
#[derive(Clone, Copy, Debug)]
pub struct TransformedVertex {
    /// Whether the vertex survived the transform.
    pub valid: bool,
    /// Screen-space x in fixed-point pixels.
    pub sx: i64,
    /// Screen-space y in fixed-point pixels, top-left origin.
    pub sy: i64,
    /// Depth in normalized device coordinates, `-FX_ONE` near.
    pub depth: i64,
    /// World-space position.
    pub world: Vec3x,
    /// World-space normal, renormalized.
    pub normal: Vec3x,
}

/// What the rasterizer relies on of a transformed vertex: the normal is
/// unit-bounded, and a valid vertex has bounded screen coordinates and a
/// well-formed world position.
pub open spec fn tv_wf(t: TransformedVertex) -> bool {
    &&& -(FX_ONE as int) <= t.normal.x as int <= FX_ONE as int
    &&& -(FX_ONE as int) <= t.normal.y as int <= FX_ONE as int
    &&& -(FX_ONE as int) <= t.normal.z as int <= FX_ONE as int
    &&& t.valid ==> {
        &&& -SCREEN_LIM <= t.sx <= SCREEN_LIM
        &&& -SCREEN_LIM <= t.sy <= SCREEN_LIM
        &&& t.world.wf()
    }
}

/// An invalid transform result: off-screen, far depth, flagged.
pub open spec fn tv_invalid_s(world: Vec3x, normal: Vec3x) -> TransformedVertex {
    TransformedVertex { valid: false, sx: 0i64, sy: 0i64, depth: FX_ONE, world, normal }
}

/// The world normal a vertex gets: the model matrix applied with a zero
/// homogeneous component, renormalized; the zero vector if the image
/// leaves the coordinate range. Applying the model matrix directly is a
/// documented simplification — exact for rotations and uniform scale,
/// approximate under non-uniform scale, where an inverse-transpose would
/// be exact.
pub open spec fn world_normal_s(v: Vertex, model: Mat4x) -> Vec3x {
    if apply_ok_s(model, dir4_s(v.normal)) {
        let n4 = apply_v_s(model, dir4_s(v.normal));
        normalize_s(Vec3x { x: n4.x, y: n4.y, z: n4.z })
    } else {
        normalize_s(Vec3x { x: 0i64, y: 0i64, z: 0i64 })
    }
}

/// The vertex transform stage: world position by the model matrix, clip
/// position by the composed matrix, perspective divide, screen mapping
/// `sx = (ndc_x + 1) * width / 2`, `sy = (1 - ndc_y) * height / 2`
/// (the vertical flip matches the framebuffer's top-left origin), depth
/// left as normalized-device z. The vertex is invalid when a matrix
/// image leaves the coordinate range, when the homogeneous component is
/// zero — the smallest nonzero fixed-point value already exceeds the
/// usual degeneracy epsilon, so the zero test is the whole check — or
/// when the mapped screen position or depth leaves its range.
pub open spec fn transform_vertex_s(
    v: Vertex,
    model: Mat4x,
    mvp: Mat4x,
    width: int,
    height: int,
) -> TransformedVertex {
    let wn = world_normal_s(v, model);
    if !apply_ok_s(model, point4_s(v.position)) {
        tv_invalid_s(Vec3x { x: 0i64, y: 0i64, z: 0i64 }, wn)
    } else {
        let w4 = apply_v_s(model, point4_s(v.position));
        let world = Vec3x { x: w4.x, y: w4.y, z: w4.z };
        if !apply_ok_s(mvp, point4_s(v.position)) {
            tv_invalid_s(world, wn)
        } else {
            let clip = apply_v_s(mvp, point4_s(v.position));
            if clip.w == 0 {
                tv_invalid_s(world, wn)
            } else {
                let ndc_x = tdiv_any(clip.x * FX_ONE, clip.w as int);
                let ndc_y = tdiv_any(clip.y * FX_ONE, clip.w as int);
                let ndc_z = tdiv_any(clip.z * FX_ONE, clip.w as int);
                let sx = tdiv((ndc_x + FX_ONE) * width, 2);
                let sy = tdiv((FX_ONE - ndc_y) * height, 2);
                if -SCREEN_LIM <= sx <= SCREEN_LIM && -SCREEN_LIM <= sy <= SCREEN_LIM
                    && -(WORLD_LIM as int) <= ndc_z <= WORLD_LIM as int {
                    TransformedVertex {
                        valid: true,
                        sx: sx as i64,
                        sy: sy as i64,
                        depth: ndc_z as i64,
                        world,
                        normal: wn,
                    }
                } else {
                    tv_invalid_s(world, wn)
                }
            }
        }
    }
}

/// The write policy of a rasterization pass.
#[derive(Clone, Copy, Debug)]
pub enum RasterPolicy {
    /// Depth-tested write, with the bias added to the interpolated depth
    /// before the test and before storing. A bias of zero is the
    /// standard policy.
    Test {
        /// The depth offset; negative values pull fragments nearer.
        bias: i64,
    },
    /// Overlay: no depth test, no depth write; the color is blended over
    /// what is there unless the pixel already holds point-blank content.
    Overlay,
}

/// The renderer: the screen dimensions every transform maps into.
pub struct Renderer {
    /// Output width in pixels.
    pub width: usize,
    /// Output height in pixels.
    pub height: usize,
}

impl Renderer {
    /// A renderer for the given output dimensions.
    pub fn new(width: usize, height: usize) -> (r: Renderer)
        requires
            width <= MAX_DIM,
            height <= MAX_DIM,
        ensures
            r.width == width,
            r.height == height,
            r.wf(),
    {
        Renderer { width, height }
    }

    /// Dimensions within the framebuffer limit.
    pub open spec fn wf(self) -> bool {
        self.width <= MAX_DIM && self.height <= MAX_DIM
    }

    /// The vertex transform stage; see `transform_vertex_s`.
    fn transform_vertex(&self, vertex: &Vertex, model: &Mat4x, mvp: &Mat4x) -> (tv:
        TransformedVertex)
        requires
            self.wf(),
            vertex.wf(),
            model.wf(),
            mvp.wf(),
        ensures
            tv == transform_vertex_s(
                *vertex,
                *model,
                *mvp,
                self.width as int,
                self.height as int,
            ),
            tv_wf(tv),
    {
        let nd4 = mat4_apply(model, &dir4(&vertex.normal));
        let wn: Vec3x = match nd4 {
            Some(n4) => vec3_normalize(&Vec3x { x: n4.x, y: n4.y, z: n4.z }),
            None => vec3_normalize(&Vec3x { x: 0, y: 0, z: 0 }),
        };
        let world4 = match mat4_apply(model, &point4(&vertex.position)) {
            Some(w4) => w4,
            None => {
                return TransformedVertex {
                    valid: false,
                    sx: 0,
                    sy: 0,
                    depth: FX_ONE,
                    world: Vec3x { x: 0, y: 0, z: 0 },
                    normal: wn,
                };
            },
        };
        let world = Vec3x { x: world4.x, y: world4.y, z: world4.z };
        let clip = match mat4_apply(mvp, &point4(&vertex.position)) {
            Some(c) => c,
            None => {
                return TransformedVertex {
                    valid: false,
                    sx: 0,
                    sy: 0,
                    depth: FX_ONE,
                    world,
                    normal: wn,
                };
            },
        };
        if clip.w == 0 {
            return TransformedVertex {
                valid: false,
                sx: 0,
                sy: 0,
                depth: FX_ONE,
                world,
                normal: wn,
            };
        }
        let ndc_x: i128 = ndc_div(clip.x, clip.w);
        let ndc_y: i128 = ndc_div(clip.y, clip.w);
        let ndc_z: i128 = ndc_div(clip.z, clip.w);
        proof {
            lemma_mul_bound(
                ndc_x + FX_ONE as int,
                self.width as int,
                0x2000_0000_0000_0000_0000,
                MAX_DIM as int,
            );
            lemma_mul_bound(
                FX_ONE as int - ndc_y,
                self.height as int,
                0x2000_0000_0000_0000_0000,
                MAX_DIM as int,
            );
        }
        let sx: i128 = ((ndc_x + FX_ONE as i128) * (self.width as i128)) / 2;
        let sy: i128 = ((FX_ONE as i128 - ndc_y) * (self.height as i128)) / 2;
        if -(SCREEN_LIM as i128) <= sx && sx <= SCREEN_LIM as i128 && -(SCREEN_LIM as i128) <= sy
            && sy <= SCREEN_LIM as i128 && -(WORLD_LIM as i128) <= ndc_z && ndc_z <= WORLD_LIM
            as i128 {
            TransformedVertex {
                valid: true,
                sx: sx as i64,
                sy: sy as i64,
                depth: ndc_z as i64,
                world,
                normal: wn,
            }
        } else {
            TransformedVertex { valid: false, sx: 0, sy: 0, depth: FX_ONE, world, normal: wn }
        }
    }
}

/// One perspective-divide component: a clip coordinate scaled by one
/// unit and divided by the homogeneous component, truncating, for a
/// divisor of either sign.
fn ndc_div(c: i64, w: i64) -> (r: i128)
    requires
        w != 0,
        -WORLD_LIM <= c <= WORLD_LIM,
    ensures
        r == tdiv_any(c * FX_ONE, w as int),
        -0x1000_0000_0000_0000_0000 <= r <= 0x1000_0000_0000_0000_0000,
{
    let num: i128 = mul_wide(c, FX_ONE);
    let r: i128 = if w > 0 {
        proof {
            lemma_tdiv_bounds(num as int, w as int);
        }
        num / (w as i128)
    } else {
        proof {
            lemma_tdiv_bounds(-(num as int), -(w as int));
        }
        (-num) / (-(w as i128))
    };
    r
}

/// Twice the signed area of the triangle `(a, b, c)` in fixed-point
/// screen coordinates. Positive for the front-facing winding; zero or
/// negative triangles are culled.
pub open spec fn cross2_s(ax: int, ay: int, bx: int, by: int, cx: int, cy: int) -> int {
    (bx - ax) * (cy - ay) - (cx - ax) * (by - ay)
}

/// The back-face test value of a triangle: the cross product of its two
/// screen-space edges.
pub open spec fn tri_denom_s(
    v0: TransformedVertex,
    v1: TransformedVertex,
    v2: TransformedVertex,
) -> int {
    cross2_s(v0.sx as int, v0.sy as int, v1.sx as int, v1.sy as int, v2.sx as int, v2.sy as int)
}

/// The fixed-point coordinate of a pixel's center.
pub open spec fn pix_center_s(x: int) -> int {
    65536 * x + HALF_PIXEL
}

/// Whether a triangle passes the shared per-triangle checks, the same
/// under every policy: all three vertices valid, front-facing with
/// positive area, and every vertex depth within the normalized
/// `[-1, 1]` range. The overlay policy skips the per-pixel depth test,
/// but out-of-range geometry is rejected here all the same.
pub open spec fn tri_accepted_s(
    v0: TransformedVertex,
    v1: TransformedVertex,
    v2: TransformedVertex,
) -> bool {
    &&& v0.valid
    &&& v1.valid
    &&& v2.valid
    &&& tri_denom_s(v0, v1, v2) > 0
    &&& -(FX_ONE as int) <= v0.depth <= FX_ONE as int
    &&& -(FX_ONE as int) <= v1.depth <= FX_ONE as int
    &&& -(FX_ONE as int) <= v2.depth <= FX_ONE as int
}

/// The smallest of three values.
pub open spec fn min3_s(a: int, b: int, c: int) -> int {
    if a <= b && a <= c {
        a
    } else if b <= c {
        b
    } else {
        c
    }
}

/// The largest of three values.
pub open spec fn max3_s(a: int, b: int, c: int) -> int {
    if a >= b && a >= c {
        a
    } else if b >= c {
        b
    } else {
        c
    }
}

/// The lower bounding-box pixel of a fixed-point coordinate: its floor,
/// clamped below at zero.
pub open spec fn bbox_lo_s(m: int) -> int {
    if m < 0 {
        0
    } else {
        m / 65536
    }
}

/// The upper bounding-box pixel of a fixed-point coordinate: its
/// ceiling, clamped into `[0, limit]`.
pub open spec fn bbox_hi_s(m: int, limit: int) -> int {
    let c = if m >= 0 {
        (m + 65535) / 65536
    } else {
        0int
    };
    if c > limit {
        limit
    } else {
        c
    }
}

/// A barycentric-weighted combination of one attribute over the
/// triangle's three vertices, brought back to scale by the full area.
pub open spec fn interp_s(e0: int, e1: int, e2: int, a0: int, a1: int, a2: int, denom: int) -> int {
    tdiv(e0 * a0 + e1 * a1 + e2 * a2, denom)
}

/// The fragment's world normal: each component interpolated, clamped
/// into the normalizer's domain, then renormalized.
pub open spec fn frag_normal_s(
    e0: int,
    e1: int,
    e2: int,
    v0: TransformedVertex,
    v1: TransformedVertex,
    v2: TransformedVertex,
    denom: int,
) -> Vec3x {
    normalize_s(
        Vec3x {
            x: clamp_s(
                interp_s(
                    e0,
                    e1,
                    e2,
                    v0.normal.x as int,
                    v1.normal.x as int,
                    v2.normal.x as int,
                    denom,
                ),
                -(NORM_IN_LIM as int),
                NORM_IN_LIM as int,
            ) as i64,
            y: clamp_s(
                interp_s(
                    e0,
                    e1,
                    e2,
                    v0.normal.y as int,
                    v1.normal.y as int,
                    v2.normal.y as int,
                    denom,
                ),
                -(NORM_IN_LIM as int),
                NORM_IN_LIM as int,
            ) as i64,
            z: clamp_s(
                interp_s(
                    e0,
                    e1,
                    e2,
                    v0.normal.z as int,
                    v1.normal.z as int,
                    v2.normal.z as int,
                    denom,
                ),
                -(NORM_IN_LIM as int),
                NORM_IN_LIM as int,
            ) as i64,
        },
    )
}

/// One pixel of a triangle fill: barycentric coverage at the pixel
/// center (covered means all three weights nonnegative), attribute
/// interpolation with its range checks, the shader call, and the
/// policy's write. A pixel that fails any check leaves the framebuffer
/// untouched.
pub open spec fn raster_pixel_s<S: PlanetShader>(
    fbv: FbView,
    v0: TransformedVertex,
    v1: TransformedVertex,
    v2: TransformedVertex,
    shader: S,
    time: i64,
    policy: RasterPolicy,
    x: int,
    y: int,
) -> FbView {
    let px = pix_center_s(x);
    let py = pix_center_s(y);
    let e0 = cross2_s(px, py, v1.sx as int, v1.sy as int, v2.sx as int, v2.sy as int);
    let e1 = cross2_s(v0.sx as int, v0.sy as int, px, py, v2.sx as int, v2.sy as int);
    let e2 = cross2_s(v0.sx as int, v0.sy as int, v1.sx as int, v1.sy as int, px, py);
    let denom = tri_denom_s(v0, v1, v2);
    if e0 >= 0 && e1 >= 0 && e2 >= 0 {
        let wx = interp_s(e0, e1, e2, v0.world.x as int, v1.world.x as int, v2.world.x as int, denom);
        let wy = interp_s(e0, e1, e2, v0.world.y as int, v1.world.y as int, v2.world.y as int, denom);
        let wz = interp_s(e0, e1, e2, v0.world.z as int, v1.world.z as int, v2.world.z as int, denom);
        if fits_world(wx) && fits_world(wy) && fits_world(wz) {
            let world = Vec3x { x: wx as i64, y: wy as i64, z: wz as i64 };
            let wn = frag_normal_s(e0, e1, e2, v0, v1, v2, denom);
            let c = shader.fragment_s(world, wn, time);
            match policy {
                RasterPolicy::Test { bias } => {
                    let db = interp_s(
                        e0,
                        e1,
                        e2,
                        v0.depth as int,
                        v1.depth as int,
                        v2.depth as int,
                        denom,
                    ) + bias;
                    if -(FX_ONE as int) <= db <= FX_ONE as int {
                        set_pixel_s(fbv, x, y, c, db as i64)
                    } else {
                        fbv
                    }
                },
                RasterPolicy::Overlay => blend_pixel_s(fbv, x, y, c),
            }
        } else {
            fbv
        }
    } else {
        fbv
    }
}

/// A row of the fill: the pixels `x0 .. x0 + n` of row `y`, left to
/// right.
pub open spec fn raster_row_s<S: PlanetShader>(
    fbv: FbView,
    v0: TransformedVertex,
    v1: TransformedVertex,
    v2: TransformedVertex,
    shader: S,
    time: i64,
    policy: RasterPolicy,
    y: int,
    x0: int,
    n: nat,
) -> FbView
    decreases n,
{
    if n == 0 {
        fbv
    } else {
        raster_pixel_s(
            raster_row_s(fbv, v0, v1, v2, shader, time, policy, y, x0, (n - 1) as nat),
            v0,
            v1,
            v2,
            shader,
            time,
            policy,
            x0 + n - 1,
            y,
        )
    }
}

/// The rows `y0 .. y0 + rows` of the fill, top to bottom, each swept
/// left to right over `x0 .. x0 + cols`.
pub open spec fn raster_rows_s<S: PlanetShader>(
    fbv: FbView,
    v0: TransformedVertex,
    v1: TransformedVertex,
    v2: TransformedVertex,
    shader: S,
    time: i64,
    policy: RasterPolicy,
    y0: int,
    rows: nat,
    x0: int,
    cols: nat,
) -> FbView
    decreases rows,
{
    if rows == 0 {
        fbv
    } else {
        raster_row_s(
            raster_rows_s(fbv, v0, v1, v2, shader, time, policy, y0, (rows - 1) as nat, x0, cols),
            v0,
            v1,
            v2,
            shader,
            time,
            policy,
            y0 + rows - 1,
            x0,
            cols,
        )
    }
}

/// One whole triangle: the per-triangle checks, the bounding box from
/// the three screen positions clamped to the output, the degeneracy
/// check, and the fill over the box. The clamp alone already caps the
/// box at the output size, so no separate guard against implausibly
/// large boxes is needed.
pub open spec fn rasterize_triangle_s<S: PlanetShader>(
    fbv: FbView,
    v0: TransformedVertex,
    v1: TransformedVertex,
    v2: TransformedVertex,
    shader: S,
    time: i64,
    policy: RasterPolicy,
    width: int,
    height: int,
) -> FbView {
    if !tri_accepted_s(v0, v1, v2) {
        fbv
    } else {
        let min_x = bbox_lo_s(min3_s(v0.sx as int, v1.sx as int, v2.sx as int));
        let max_x = bbox_hi_s(max3_s(v0.sx as int, v1.sx as int, v2.sx as int), width - 1);
        let min_y = bbox_lo_s(min3_s(v0.sy as int, v1.sy as int, v2.sy as int));
        let max_y = bbox_hi_s(max3_s(v0.sy as int, v1.sy as int, v2.sy as int), height - 1);
        if min_x >= max_x || min_y >= max_y {
            fbv
        } else {
            raster_rows_s(
                fbv,
                v0,
                v1,
                v2,
                shader,
                time,
                policy,
                min_y,
                (max_y + 1 - min_y) as nat,
                min_x,
                (max_x + 1 - min_x) as nat,
            )
        }
    }
}

/// The screen-space edge cross product, exactly.
fn cross2(ax: i64, ay: i64, bx: i64, by: i64, cx: i64, cy: i64) -> (r: i128)
    requires
        -0x1000_0000 <= ax <= 0x1000_0000,
        -0x1000_0000 <= ay <= 0x1000_0000,
        -0x1000_0000 <= bx <= 0x1000_0000,
        -0x1000_0000 <= by <= 0x1000_0000,
        -0x1000_0000 <= cx <= 0x1000_0000,
        -0x1000_0000 <= cy <= 0x1000_0000,
    ensures
        r == cross2_s(ax as int, ay as int, bx as int, by as int, cx as int, cy as int),
        -0x800_0000_0000_0000 <= r <= 0x800_0000_0000_0000,
{
    proof {
        lemma_mul_bound(bx - ax, cy - ay, 0x2000_0000, 0x2000_0000);
        lemma_mul_bound(cx - ax, by - ay, 0x2000_0000, 0x2000_0000);
    }
    let t1: i128 = ((bx - ax) as i128) * ((cy - ay) as i128);
    let t2: i128 = ((cx - ax) as i128) * ((by - ay) as i128);
    t1 - t2
}

/// The weighted attribute combination, exactly.
fn interp3(e0: i128, e1: i128, e2: i128, a0: i64, a1: i64, a2: i64, denom: i128) -> (r: i128)
    requires
        denom > 0,
        -0x800_0000_0000_0000 <= e0 <= 0x800_0000_0000_0000,
        -0x800_0000_0000_0000 <= e1 <= 0x800_0000_0000_0000,
        -0x800_0000_0000_0000 <= e2 <= 0x800_0000_0000_0000,
        -WORLD_LIM <= a0 <= WORLD_LIM,
        -WORLD_LIM <= a1 <= WORLD_LIM,
        -WORLD_LIM <= a2 <= WORLD_LIM,
    ensures
        r == interp_s(e0 as int, e1 as int, e2 as int, a0 as int, a1 as int, a2 as int, denom as int),
        -0x20_0000_0000_0000_0000_0000_0000_0000 <= r <= 0x20_0000_0000_0000_0000_0000_0000_0000,
{
    proof {
        lemma_mul_bound(e0 as int, a0 as int, 0x800_0000_0000_0000, WORLD_LIM as int);
        lemma_mul_bound(e1 as int, a1 as int, 0x800_0000_0000_0000, WORLD_LIM as int);
        lemma_mul_bound(e2 as int, a2 as int, 0x800_0000_0000_0000, WORLD_LIM as int);
    }
    let num: i128 = e0 * (a0 as i128) + e1 * (a1 as i128) + e2 * (a2 as i128);
    proof {
        lemma_tdiv_bounds(num as int, denom as int);
    }
    num / denom
}

/// The smallest of three scalars.
fn min3(a: i64, b: i64, c: i64) -> (r: i64)
    ensures
        r as int == min3_s(a as int, b as int, c as int),
{
    if a <= b && a <= c {
        a
    } else if b <= c {
        b
    } else {
        c
    }
}

/// The largest of three scalars.
fn max3(a: i64, b: i64, c: i64) -> (r: i64)
    ensures
        r as int == max3_s(a as int, b as int, c as int),
{
    if a >= b && a >= c {
        a
    } else if b >= c {
        b
    } else {
        c
    }
}

/// The lower bounding-box pixel.
fn bbox_lo(m: i64) -> (r: usize)
    requires
        -SCREEN_LIM <= m <= SCREEN_LIM,
    ensures
        r as int == bbox_lo_s(m as int),
        r <= MAX_DIM,
{
    if m < 0 {
        0
    } else {
        (m / 65536) as usize
    }
}

/// The upper bounding-box pixel.
fn bbox_hi(m: i64, limit: usize) -> (r: usize)
    requires
        -SCREEN_LIM <= m <= SCREEN_LIM,
        limit <= MAX_DIM,
    ensures
        r as int == bbox_hi_s(m as int, limit as int),
        r <= limit,
{
    if m < 0 {
        0
    } else {
        let c: i64 = (m + 65535) / 65536;
        if c > limit as i64 {
            limit
        } else {
            c as usize
        }
    }
}

impl Renderer {
    /// Fills one triangle under the given policy; the framebuffer
    /// afterwards is exactly the specification's fold over the bounding
    /// box.
    #[verifier::loop_isolation(false)]
    fn rasterize_triangle<S: PlanetShader>(
        &self,
        fb: &mut Framebuffer,
        v0: &TransformedVertex,
        v1: &TransformedVertex,
        v2: &TransformedVertex,
        shader: &S,
        time: i64,
        policy: RasterPolicy,
    )
        requires
            old(fb)@.wf(),
            self.wf(),
            tv_wf(*v0),
            tv_wf(*v1),
            tv_wf(*v2),
        ensures
            final(fb)@ == rasterize_triangle_s(
                old(fb)@,
                *v0,
                *v1,
                *v2,
                *shader,
                time,
                policy,
                self.width as int,
                self.height as int,
            ),
            final(fb)@.wf(),
            final(fb)@.width == old(fb)@.width,
            final(fb)@.height == old(fb)@.height,
    {
        if !v0.valid || !v1.valid || !v2.valid {
            return ;
        }
        let denom: i128 = cross2(v0.sx, v0.sy, v1.sx, v1.sy, v2.sx, v2.sy);
        if denom <= 0 {
            return ;
        }
        if v0.depth < -FX_ONE || v0.depth > FX_ONE || v1.depth < -FX_ONE || v1.depth > FX_ONE
            || v2.depth < -FX_ONE || v2.depth > FX_ONE {
            return ;
        }
        if self.width == 0 || self.height == 0 {
            return ;
        }
        let min_x: usize = bbox_lo(min3(v0.sx, v1.sx, v2.sx));
        let max_x: usize = bbox_hi(max3(v0.sx, v1.sx, v2.sx), self.width - 1);
        let min_y: usize = bbox_lo(min3(v0.sy, v1.sy, v2.sy));
        let max_y: usize = bbox_hi(max3(v0.sy, v1.sy, v2.sy), self.height - 1);
        if min_x >= max_x || min_y >= max_y {
            return ;
        }
        let ghost fb0 = fb@;
        let ghost cols = (max_x + 1 - min_x) as nat;
        let mut y: usize = min_y;
        while y <= max_y
            invariant
                min_y <= y <= max_y + 1,
                fb@ == raster_rows_s(
                    fb0,
                    *v0,
                    *v1,
                    *v2,
                    *shader,
                    time,
                    policy,
                    min_y as int,
                    (y - min_y) as nat,
                    min_x as int,
                    cols,
                ),
                fb@.wf(),
                fb@.width == fb0.width,
                fb@.height == fb0.height,
            decreases max_y + 1 - y,
        {
            let ghost row0 = fb@;
            let py: i64 = (y as i64) * 65536 + 32768;
            let mut x: usize = min_x;
            while x <= max_x
                invariant
                    min_x <= x <= max_x + 1,
                    min_y <= y <= max_y,
                    py == 65536 * y + 32768,
                    row0 == raster_rows_s(
                        fb0,
                        *v0,
                        *v1,
                        *v2,
                        *shader,
                        time,
                        policy,
                        min_y as int,
                        (y - min_y) as nat,
                        min_x as int,
                        cols,
                    ),
                    fb@ == raster_row_s(
                        row0,
                        *v0,
                        *v1,
                        *v2,
                        *shader,
                        time,
                        policy,
                        y as int,
                        min_x as int,
                        (x - min_x) as nat,
                    ),
                    fb@.wf(),
                    fb@.width == fb0.width,
                    fb@.height == fb0.height,
                decreases max_x + 1 - x,
            {
                let ghost prev = fb@;
                let px: i64 = (x as i64) * 65536 + 32768;
                let e0: i128 = cross2(px, py, v1.sx, v1.sy, v2.sx, v2.sy);
                let e1: i128 = cross2(v0.sx, v0.sy, px, py, v2.sx, v2.sy);
                let e2: i128 = cross2(v0.sx, v0.sy, v1.sx, v1.sy, px, py);
                if e0 >= 0 && e1 >= 0 && e2 >= 0 {
                    let wx = interp3(e0, e1, e2, v0.world.x, v1.world.x, v2.world.x, denom);
                    let wy = interp3(e0, e1, e2, v0.world.y, v1.world.y, v2.world.y, denom);
                    let wz = interp3(e0, e1, e2, v0.world.z, v1.world.z, v2.world.z, denom);
                    if -(WORLD_LIM as i128) <= wx && wx <= WORLD_LIM as i128 && -(WORLD_LIM
                        as i128) <= wy && wy <= WORLD_LIM as i128 && -(WORLD_LIM as i128) <= wz
                        && wz <= WORLD_LIM as i128 {
                        let world = Vec3x { x: wx as i64, y: wy as i64, z: wz as i64 };
                        let nx = clamp128(
                            interp3(e0, e1, e2, v0.normal.x, v1.normal.x, v2.normal.x, denom),
                            -NORM_IN_LIM,
                            NORM_IN_LIM,
                        );
                        let ny = clamp128(
                            interp3(e0, e1, e2, v0.normal.y, v1.normal.y, v2.normal.y, denom),
                            -NORM_IN_LIM,
                            NORM_IN_LIM,
                        );
                        let nz = clamp128(
                            interp3(e0, e1, e2, v0.normal.z, v1.normal.z, v2.normal.z, denom),
                            -NORM_IN_LIM,
                            NORM_IN_LIM,
                        );
                        let wn = vec3_normalize(&Vec3x { x: nx, y: ny, z: nz });
                        let color = shader.fragment(&world, &wn, time);
                        match policy {
                            RasterPolicy::Test { bias } => {
                                let db: i128 = interp3(
                                    e0,
                                    e1,
                                    e2,
                                    v0.depth,
                                    v1.depth,
                                    v2.depth,
                                    denom,
                                ) + (bias as i128);
                                if -(FX_ONE as i128) <= db && db <= FX_ONE as i128 {
                                    fb.set_pixel(x, y, color, db as i64);
                                }
                            },
                            RasterPolicy::Overlay => {
                                fb.blend_pixel(x, y, color);
                            },
                        }
                    }
                }
                proof {
                    assert(fb@ == raster_pixel_s(
                        prev,
                        *v0,
                        *v1,
                        *v2,
                        *shader,
                        time,
                        policy,
                        x as int,
                        y as int,
                    ));
                    assert(fb@ == raster_row_s(
                        row0,
                        *v0,
                        *v1,
                        *v2,
                        *shader,
                        time,
                        policy,
                        y as int,
                        min_x as int,
                        (x + 1 - min_x) as nat,
                    ));
                }
                x = x + 1;
            }
            proof {
                assert(fb@ == raster_rows_s(
                    fb0,
                    *v0,
                    *v1,
                    *v2,
                    *shader,
                    time,
                    policy,
                    min_y as int,
                    (y + 1 - min_y) as nat,
                    min_x as int,
                    cols,
                ));
            }
            y = y + 1;
        }
    }
}

/// Every vertex of a buffer taken through the transform stage.
pub open spec fn transformed_seq_s(
    verts: Seq<Vertex>,
    model: Mat4x,
    mvp: Mat4x,
    width: int,
    height: int,
) -> Seq<TransformedVertex> {
    Seq::new(verts.len(), |i: int| transform_vertex_s(verts[i], model, mvp, width, height))
}

/// The first `k` triangles of an index buffer filled in order.
pub open spec fn render_tris_s<S: PlanetShader>(
    fbv: FbView,
    tv: Seq<TransformedVertex>,
    idx: Seq<u32>,
    shader: S,
    time: i64,
    policy: RasterPolicy,
    width: int,
    height: int,
    k: nat,
) -> FbView
    decreases k,
{
    if k == 0 {
        fbv
    } else {
        rasterize_triangle_s(
            render_tris_s(fbv, tv, idx, shader, time, policy, width, height, (k - 1) as nat),
            tv[idx[3 * (k - 1)] as int],
            tv[idx[3 * (k - 1) + 1] as int],
            tv[idx[3 * (k - 1) + 2] as int],
            shader,
            time,
            policy,
            width,
            height,
        )
    }
}

/// A whole render call: the view-projection and model-view-projection
/// products (nothing is drawn if either leaves the coordinate range, the
/// way a floating-point pipeline would wash every vertex out to
/// infinity), the vertex transform pass, and every triangle in order.
pub open spec fn render_mesh_s<S: PlanetShader>(
    fbv: FbView,
    verts: Seq<Vertex>,
    idx: Seq<u32>,
    shader: S,
    model: Mat4x,
    view: Mat4x,
    proj: Mat4x,
    time: i64,
    policy: RasterPolicy,
    width: int,
    height: int,
) -> FbView {
    if mul_ok_s(proj, view) && mul_ok_s(mul_v_s(proj, view), model) {
        let mvp = mul_v_s(mul_v_s(proj, view), model);
        render_tris_s(
            fbv,
            transformed_seq_s(verts, model, mvp, width, height),
            idx,
            shader,
            time,
            policy,
            width,
            height,
            (idx.len() / 3) as nat,
        )
    } else {
        fbv
    }
}

impl Renderer {
    /// The shared body of the three render policies.
    #[verifier::loop_isolation(false)]
    #[verifier::rlimit(100)]
    fn render_mesh_impl<S: PlanetShader>(
        &self,
        framebuffer: &mut Framebuffer,
        mesh: &ObjMesh,
        shader: &S,
        model_matrix: &Mat4x,
        view_matrix: &Mat4x,
        projection_matrix: &Mat4x,
        time: i64,
        policy: RasterPolicy,
    )
        requires
            old(framebuffer)@.wf(),
            self.wf(),
            mesh.wf(),
            model_matrix.wf(),
            view_matrix.wf(),
            projection_matrix.wf(),
        ensures
            final(framebuffer)@ == render_mesh_s(
                old(framebuffer)@,
                mesh.vertices@,
                mesh.indices@,
                *shader,
                *model_matrix,
                *view_matrix,
                *projection_matrix,
                time,
                policy,
                self.width as int,
                self.height as int,
            ),
            final(framebuffer)@.wf(),
            final(framebuffer)@.width == old(framebuffer)@.width,
            final(framebuffer)@.height == old(framebuffer)@.height,
    {
        let pv = match mat4_mul(projection_matrix, view_matrix) {
            Some(m) => m,
            None => {
                return ;
            },
        };
        let mvp = match mat4_mul(&pv, model_matrix) {
            Some(m) => m,
            None => {
                return ;
            },
        };
        let ghost tseq = transformed_seq_s(
            mesh.vertices@,
            *model_matrix,
            mvp,
            self.width as int,
            self.height as int,
        );
        let mut tvs: Vec<TransformedVertex> = Vec::new();
        let mut j: usize = 0;
        while j < mesh.vertices.len()
            invariant
                j <= mesh.vertices.len(),
                tvs@.len() == j,
                forall|i: int|
                    0 <= i < j ==> #[trigger] tvs@[i] == transform_vertex_s(
                        mesh.vertices@[i],
                        *model_matrix,
                        mvp,
                        self.width as int,
                        self.height as int,
                    ) && tv_wf(tvs@[i]),
            decreases mesh.vertices.len() - j,
        {
            let tv = self.transform_vertex(&mesh.vertices[j], model_matrix, &mvp);
            tvs.push(tv);
            j = j + 1;
        }
        proof {
            assert(tvs@ =~= tseq);
        }
        let ghost fb0 = framebuffer@;
        let ntris: usize = mesh.indices.len() / 3;
        let mut t: usize = 0;
        while t < ntris
            invariant
                t <= ntris,
                framebuffer@ == render_tris_s(
                    fb0,
                    tseq,
                    mesh.indices@,
                    *shader,
                    time,
                    policy,
                    self.width as int,
                    self.height as int,
                    t as nat,
                ),
                framebuffer@.wf(),
                framebuffer@.width == fb0.width,
                framebuffer@.height == fb0.height,
            decreases ntris - t,
        {
            let i0 = mesh.indices[3 * t] as usize;
            let i1 = mesh.indices[3 * t + 1] as usize;
            let i2 = mesh.indices[3 * t + 2] as usize;
            self.rasterize_triangle(framebuffer, &tvs[i0], &tvs[i1], &tvs[i2], shader, time, policy);
            t = t + 1;
        }
    }

    /// Renders a mesh with the standard nearer-wins depth test.
    pub fn render_mesh<S: PlanetShader>(
        &self,
        framebuffer: &mut Framebuffer,
        mesh: &ObjMesh,
        shader: &S,
        model_matrix: &Mat4x,
        view_matrix: &Mat4x,
        projection_matrix: &Mat4x,
        time: i64,
    )
        requires
            old(framebuffer)@.wf(),
            self.wf(),
            mesh.wf(),
            model_matrix.wf(),
            view_matrix.wf(),
            projection_matrix.wf(),
        ensures
            final(framebuffer)@ == render_mesh_s(
                old(framebuffer)@,
                mesh.vertices@,
                mesh.indices@,
                *shader,
                *model_matrix,
                *view_matrix,
                *projection_matrix,
                time,
                RasterPolicy::Test { bias: 0i64 },
                self.width as int,
                self.height as int,
            ),
            final(framebuffer)@.wf(),
            final(framebuffer)@.width == old(framebuffer)@.width,
            final(framebuffer)@.height == old(framebuffer)@.height,
    {
        self.render_mesh_impl(
            framebuffer,
            mesh,
            shader,
            model_matrix,
            view_matrix,
            projection_matrix,
            time,
            RasterPolicy::Test { bias: 0 },
        );
    }

    /// Renders a mesh with the caller's bias added to every fragment
    /// depth before the test and before storing. A negative bias pulls
    /// the mesh nearer, letting it win depth tests it would otherwise
    /// lose — at the price of occluding content nearer than it truly is.
    pub fn render_mesh_with_bias<S: PlanetShader>(
        &self,
        framebuffer: &mut Framebuffer,
        mesh: &ObjMesh,
        shader: &S,
        model_matrix: &Mat4x,
        view_matrix: &Mat4x,
        projection_matrix: &Mat4x,
        time: i64,
        depth_bias: i64,
    )
        requires
            old(framebuffer)@.wf(),
            self.wf(),
            mesh.wf(),
            model_matrix.wf(),
            view_matrix.wf(),
            projection_matrix.wf(),
        ensures
            final(framebuffer)@ == render_mesh_s(
                old(framebuffer)@,
                mesh.vertices@,
                mesh.indices@,
                *shader,
                *model_matrix,
                *view_matrix,
                *projection_matrix,
                time,
                RasterPolicy::Test { bias: depth_bias },
                self.width as int,
                self.height as int,
            ),
            final(framebuffer)@.wf(),
            final(framebuffer)@.width == old(framebuffer)@.width,
            final(framebuffer)@.height == old(framebuffer)@.height,
    {
        self.render_mesh_impl(
            framebuffer,
            mesh,
            shader,
            model_matrix,
            view_matrix,
            projection_matrix,
            time,
            RasterPolicy::Test { bias: depth_bias },
        );
    }

    /// Renders a mesh as an always-visible overlay: no depth test, no
    /// depth writes, colors blended over what is there. Draw overlays
    /// after the frame's ordinary geometry; because the depth buffer is
    /// untouched, later depth-tested draws behave as if no overlay had
    /// happened.
    pub fn render_mesh_overlay<S: PlanetShader>(
        &self,
        framebuffer: &mut Framebuffer,
        mesh: &ObjMesh,
        shader: &S,
        model_matrix: &Mat4x,
        view_matrix: &Mat4x,
        projection_matrix: &Mat4x,
        time: i64,
    )
        requires
            old(framebuffer)@.wf(),
            self.wf(),
            mesh.wf(),
            model_matrix.wf(),
            view_matrix.wf(),
            projection_matrix.wf(),
        ensures
            final(framebuffer)@ == render_mesh_s(
                old(framebuffer)@,
                mesh.vertices@,
                mesh.indices@,
                *shader,
                *model_matrix,
                *view_matrix,
                *projection_matrix,
                time,
                RasterPolicy::Overlay,
                self.width as int,
                self.height as int,
            ),
            final(framebuffer)@.wf(),
            final(framebuffer)@.width == old(framebuffer)@.width,
            final(framebuffer)@.height == old(framebuffer)@.height,
    {
        self.render_mesh_impl(
            framebuffer,
            mesh,
            shader,
            model_matrix,
            view_matrix,
            projection_matrix,
            time,
            RasterPolicy::Overlay,
        );
    }
}

/// A projected point on the screen, in fixed-point pixel coordinates.
#[derive(Clone, Copy, Debug, PartialEq, Eq, Structural)]
pub struct ScreenPoint {
    /// Horizontal position, fixed-point pixels from the left edge.
    pub x: i64,
    /// Vertical position, fixed-point pixels from the top edge.
    pub y: i64,
}

/// Point projection: view-projection transform, rejection of any point
/// whose homogeneous component is not strictly positive or whose depth
/// leaves normalized range, screen mapping, and rejection of positions
/// outside the viewport. What remains is a screen point with
/// `0 <= x < width` and `0 <= y < height` in pixels.
pub open spec fn project_point_s(p: Vec3x, vp: Mat4x, width: int, height: int) -> Option<
    ScreenPoint,
> {
    if !apply_ok_s(vp, point4_s(p)) {
        None
    } else {
        let clip = apply_v_s(vp, point4_s(p));
        if clip.w <= 0 {
            None
        } else {
            let ndc_z = tdiv(clip.z * FX_ONE, clip.w as int);
            if ndc_z < -(FX_ONE as int) || ndc_z > FX_ONE as int {
                None
            } else {
                let sx = tdiv((tdiv(clip.x * FX_ONE, clip.w as int) + FX_ONE) * width, 2);
                let sy = tdiv((FX_ONE - tdiv(clip.y * FX_ONE, clip.w as int)) * height, 2);
                if 0 <= sx < width * FX_ONE && 0 <= sy < height * FX_ONE {
                    Some(ScreenPoint { x: sx as i64, y: sy as i64 })
                } else {
                    None
                }
            }
        }
    }
}

/// One state of the line walk, the pixel write included: used as the
/// step of the Bresenham fold.
pub open spec fn line_walk_s(
    fbv: FbView,
    x0: int,
    y0: int,
    x1: int,
    y1: int,
    dx: int,
    dy: int,
    sx: int,
    sy: int,
    err: int,
    color: Color,
    fuel: nat,
) -> FbView
    decreases fuel,
{
    let f1 = set_pixel_s(fbv, x0, y0, color, 0i64);
    if (x0 == x1 && y0 == y1) || fuel == 0 {
        f1
    } else {
        let e2 = 2 * err;
        let nx = if e2 >= dy {
            x0 + sx
        } else {
            x0
        };
        let erx = if e2 >= dy {
            err + dy
        } else {
            err
        };
        let ny = if e2 <= dx {
            y0 + sy
        } else {
            y0
        };
        let ery = if e2 <= dx {
            erx + dx
        } else {
            erx
        };
        line_walk_s(f1, nx, ny, x1, y1, dx, dy, sx, sy, ery, color, (fuel - 1) as nat)
    }
}

/// A whole line: endpoint pixels from the fixed-point screen points by
/// truncation, then the Bresenham walk, each traversed pixel written at
/// the constant mid-range depth zero so lines stay visible against
/// distant geometry.
pub open spec fn draw_line_s(
    fbv: FbView,
    p1: ScreenPoint,
    p2: ScreenPoint,
    color: Color,
) -> FbView {
    let x0 = tdiv(p1.x as int, 65536);
    let y0 = tdiv(p1.y as int, 65536);
    let x1 = tdiv(p2.x as int, 65536);
    let y1 = tdiv(p2.y as int, 65536);
    let dx = if x1 >= x0 {
        x1 - x0
    } else {
        x0 - x1
    };
    let dy = if y1 >= y0 {
        y0 - y1
    } else {
        y1 - y0
    };
    let sx = if x0 < x1 {
        1int
    } else {
        -1int
    };
    let sy = if y0 < y1 {
        1int
    } else {
        -1int
    };
    line_walk_s(fbv, x0, y0, x1, y1, dx, dy, sx, sy, dx + dy, color, (dx - dy) as nat)
}

/// The world-space points of one orbit segment endpoint: the loop point
/// offset by the parent body's position, or nothing when the sum leaves
/// the coordinate range.
pub open spec fn orbit_world_s(point: Vec3x, parent: Vec3x) -> Option<Vec3x> {
    let sx = point.x + parent.x;
    let sy = point.y + parent.y;
    let sz = point.z + parent.z;
    if fits_world(sx) && fits_world(sy) && fits_world(sz) {
        Some(Vec3x { x: sx as i64, y: sy as i64, z: sz as i64 })
    } else {
        None
    }
}

/// The projection of one orbit point.
pub open spec fn orbit_proj_s(
    point: Vec3x,
    parent: Vec3x,
    vp: Mat4x,
    width: int,
    height: int,
) -> Option<ScreenPoint> {
    match orbit_world_s(point, parent) {
        Some(w) => project_point_s(w, vp, width, height),
        None => None,
    }
}

/// The first `k` orbit segments drawn: segment `i` connects point `i`
/// to point `i + 1` (wrapping at the end), and is skipped when either
/// endpoint failed projection.
pub open spec fn orbit_segments_s(
    fbv: FbView,
    points: Seq<Vec3x>,
    parent: Vec3x,
    vp: Mat4x,
    color: Color,
    width: int,
    height: int,
    k: nat,
) -> FbView
    decreases k,
{
    if k == 0 {
        fbv
    } else {
        let f = orbit_segments_s(fbv, points, parent, vp, color, width, height, (k - 1) as nat);
        let i = k - 1;
        let a = orbit_proj_s(points[i], parent, vp, width, height);
        let b = orbit_proj_s(points[(i + 1) % (points.len() as int)], parent, vp, width, height);
        if a is Some && b is Some {
            draw_line_s(f, a->0, b->0, color)
        } else {
            f
        }
    }
}

/// A whole orbit: nothing for fewer than two points or when the
/// view-projection product leaves the coordinate range, otherwise every
/// segment of the closed loop in order.
pub open spec fn render_orbit_s(
    fbv: FbView,
    points: Seq<Vec3x>,
    parent: Vec3x,
    view: Mat4x,
    proj: Mat4x,
    color: Color,
    width: int,
    height: int,
) -> FbView {
    if points.len() < 2 {
        fbv
    } else if !mul_ok_s(proj, view) {
        fbv
    } else {
        orbit_segments_s(
            fbv,
            points,
            parent,
            mul_v_s(proj, view),
            color,
            width,
            height,
            points.len(),
        )
    }
}

/// The coarse frustum test, exactly as computed: reject when the
/// view-space depth puts the object farther behind the camera than
/// twice its radius, or when the homogeneous component is not positive;
/// otherwise compare the clip coordinates against bounds widened by a
/// radius-dependent margin clamped to [1, 20] units. Deliberately
/// permissive: false positives are acceptable, dropped visible bodies
/// are not.
pub open spec fn in_frustum_s(pos: Vec3x, radius: i64, view: Mat4x, proj: Mat4x) -> bool {
    if !mul_ok_s(proj, view) {
        false
    } else if !apply_ok_s(view, point4_s(pos)) {
        false
    } else if apply_v_s(view, point4_s(pos)).z > 2 * radius {
        false
    } else if !apply_ok_s(mul_v_s(proj, view), point4_s(pos)) {
        false
    } else {
        let clip = apply_v_s(mul_v_s(proj, view), point4_s(pos));
        if clip.w <= 0 {
            false
        } else {
            let screen_size = tdiv(radius * FX_ONE, clip.w as int);
            let margin = clamp_s(2 * screen_size, FX_ONE as int, 20 * FX_ONE);
            let bound = clip.w * (FX_ONE + margin);
            let xt = (if clip.x >= 0 { clip.x * (FX_ONE as int) } else { -(clip.x * (FX_ONE as int)) }) < bound;
            let yt = (if clip.y >= 0 { clip.y * (FX_ONE as int) } else { -(clip.y * (FX_ONE as int)) }) < bound;
            let zt = clip.z * (FX_ONE as int) > -bound && clip.z < clip.w;
            xt && yt && zt
        }
    }
}

/// Whether an object sits nearer to the camera than its radius times
/// the given multiplier: the fixed-point distance (an integer square
/// root) compared against the scaled radius.
pub open spec fn too_close_s(pos: Vec3x, radius: i64, camera: Vec3x, mult: i64) -> bool {
    let dx = pos.x - camera.x;
    let dy = pos.y - camera.y;
    let dz = pos.z - camera.z;
    isqrt_s(dx * dx + dy * dy + dz * dz) < tdiv(radius * mult, FX_ONE as int)
}

impl Renderer {
    /// Projects a world point to the screen; see `project_point_s`.
    pub fn project_point(&self, point: &Vec3x, vp: &Mat4x) -> (r: Option<ScreenPoint>)
        requires
            self.wf(),
            point.wf(),
            vp.wf(),
        ensures
            r == project_point_s(*point, *vp, self.width as int, self.height as int),
            r is Some ==> 0 <= r->0.x < self.width * FX_ONE && 0 <= r->0.y < self.height * FX_ONE,
    {
        let clip = match mat4_apply(vp, &point4(point)) {
            Some(c) => c,
            None => {
                return None;
            },
        };
        if clip.w <= 0 {
            return None;
        }
        let ndc_z: i128 = ndc_div(clip.z, clip.w);
        if ndc_z < -(FX_ONE as i128) || ndc_z > FX_ONE as i128 {
            return None;
        }
        let ndc_x: i128 = ndc_div(clip.x, clip.w);
        let ndc_y: i128 = ndc_div(clip.y, clip.w);
        proof {
            lemma_mul_bound(
                ndc_x + FX_ONE as int,
                self.width as int,
                0x2000_0000_0000_0000_0000,
                MAX_DIM as int,
            );
            lemma_mul_bound(
                FX_ONE as int - ndc_y,
                self.height as int,
                0x2000_0000_0000_0000_0000,
                MAX_DIM as int,
            );
        }
        let sx: i128 = ((ndc_x + FX_ONE as i128) * (self.width as i128)) / 2;
        let sy: i128 = ((FX_ONE as i128 - ndc_y) * (self.height as i128)) / 2;
        if 0 <= sx && sx < (self.width as i128) * (FX_ONE as i128) && 0 <= sy && sy < (self.height
            as i128) * (FX_ONE as i128) {
            Some(ScreenPoint { x: sx as i64, y: sy as i64 })
        } else {
            None
        }
    }

    /// Walks the integer Bresenham line between two projected points,
    /// writing every traversed pixel at the constant depth zero.
    fn draw_line(&self, fb: &mut Framebuffer, p1: &ScreenPoint, p2: &ScreenPoint, color: Color)
        requires
            old(fb)@.wf(),
            self.wf(),
            -SCREEN_LIM <= p1.x <= SCREEN_LIM,
            -SCREEN_LIM <= p1.y <= SCREEN_LIM,
            -SCREEN_LIM <= p2.x <= SCREEN_LIM,
            -SCREEN_LIM <= p2.y <= SCREEN_LIM,
        ensures
            final(fb)@ == draw_line_s(old(fb)@, *p1, *p2, color),
            final(fb)@.wf(),
            final(fb)@.width == old(fb)@.width,
            final(fb)@.height == old(fb)@.height,
    {
        let mut x0: i64 = p1.x / 65536;
        let mut y0: i64 = p1.y / 65536;
        let x1: i64 = p2.x / 65536;
        let y1: i64 = p2.y / 65536;
        let dx: i64 = if x1 >= x0 {
            x1 - x0
        } else {
            x0 - x1
        };
        let dy: i64 = if y1 >= y0 {
            y0 - y1
        } else {
            y1 - y0
        };
        let sx: i64 = if x0 < x1 {
            1
        } else {
            -1
        };
        let sy: i64 = if y0 < y1 {
            1
        } else {
            -1
        };
        let mut err: i64 = dx + dy;
        let mut fuel: i64 = dx - dy;
        let ghost fb0 = fb@;
        loop
            invariant_except_break
                draw_line_s(fb0, *p1, *p2, color) == line_walk_s(
                    fb@,
                    x0 as int,
                    y0 as int,
                    x1 as int,
                    y1 as int,
                    dx as int,
                    dy as int,
                    sx as int,
                    sy as int,
                    err as int,
                    color,
                    fuel as nat,
                ),
            invariant
                fb@.wf(),
                fb@.width == fb0.width,
                fb@.height == fb0.height,
                0 <= dx <= 0x2010,
                -0x2010 <= dy <= 0,
                sx == 1i64 || sx == -1i64,
                sy == 1i64 || sy == -1i64,
                -0x2010 <= x1 <= 0x2010,
                -0x2010 <= y1 <= 0x2010,
                0 <= fuel <= dx - dy,
                -0x2010 - (dx - dy - fuel) <= x0 <= 0x2010 + (dx - dy - fuel),
                -0x2010 - (dx - dy - fuel) <= y0 <= 0x2010 + (dx - dy - fuel),
                2 * dy <= err <= 2 * dx,
            ensures
                fb@ == draw_line_s(fb0, *p1, *p2, color),
            decreases fuel,
        {
            let ghost pre = fb@;
            if x0 >= 0 && y0 >= 0 && (x0 as usize) < fb.width && (y0 as usize) < fb.height {
                fb.set_pixel(x0 as usize, y0 as usize, color, 0);
            }
            proof {
                assert(fb@ == set_pixel_s(pre, x0 as int, y0 as int, color, 0i64));
            }
            if (x0 == x1 && y0 == y1) || fuel == 0 {
                proof {
                    assert(fb@ == draw_line_s(fb0, *p1, *p2, color));
                }
                break ;
            }
            let e2: i64 = 2 * err;
            if e2 >= dy {
                err = err + dy;
                x0 = x0 + sx;
            }
            if e2 <= dx {
                err = err + dx;
                y0 = y0 + sy;
            }
            fuel = fuel - 1;
        }
    }

    /// Projects both endpoints and draws the connecting line; nothing
    /// is drawn when either endpoint fails projection or the
    /// view-projection product leaves the coordinate range.
    pub fn render_line(
        &self,
        framebuffer: &mut Framebuffer,
        start: &Vec3x,
        end: &Vec3x,
        view_matrix: &Mat4x,
        projection_matrix: &Mat4x,
        color: Color,
    )
        requires
            old(framebuffer)@.wf(),
            self.wf(),
            start.wf(),
            end.wf(),
            view_matrix.wf(),
            projection_matrix.wf(),
        ensures
            final(framebuffer)@ == ({
                let fbv = old(framebuffer)@;
                if mul_ok_s(*projection_matrix, *view_matrix) {
                    let vp = mul_v_s(*projection_matrix, *view_matrix);
                    let a = project_point_s(*start, vp, self.width as int, self.height as int);
                    let b = project_point_s(*end, vp, self.width as int, self.height as int);
                    if a is Some && b is Some {
                        draw_line_s(fbv, a->0, b->0, color)
                    } else {
                        fbv
                    }
                } else {
                    fbv
                }
            }),
            final(framebuffer)@.wf(),
            final(framebuffer)@.width == old(framebuffer)@.width,
            final(framebuffer)@.height == old(framebuffer)@.height,
    {
        let vp = match mat4_mul(projection_matrix, view_matrix) {
            Some(m) => m,
            None => {
                return ;
            },
        };
        let a = self.project_point(start, &vp);
        let b = self.project_point(end, &vp);
        match (a, b) {
            (Some(pa), Some(pb)) => {
                self.draw_line(framebuffer, &pa, &pb, color);
            },
            _ => {},
        }
    }

    /// Draws a closed orbit loop: every point is offset by the parent
    /// body's position and projected, and consecutive pairs that both
    /// projected are connected, the last point wrapping to the first.
    #[verifier::loop_isolation(false)]
    pub fn render_orbit(
        &self,
        framebuffer: &mut Framebuffer,
        orbit_points: &Vec<Vec3x>,
        parent_position: Vec3x,
        view_matrix: &Mat4x,
        projection_matrix: &Mat4x,
        color: Color,
    )
        requires
            old(framebuffer)@.wf(),
            self.wf(),
            forall|i: int| 0 <= i < orbit_points.len() ==> (#[trigger] orbit_points@[i]).wf(),
            parent_position.wf(),
            view_matrix.wf(),
            projection_matrix.wf(),
        ensures
            final(framebuffer)@ == render_orbit_s(
                old(framebuffer)@,
                orbit_points@,
                parent_position,
                *view_matrix,
                *projection_matrix,
                color,
                self.width as int,
                self.height as int,
            ),
            final(framebuffer)@.wf(),
            final(framebuffer)@.width == old(framebuffer)@.width,
            final(framebuffer)@.height == old(framebuffer)@.height,
    {
        if orbit_points.len() < 2 {
            return ;
        }
        let vp = match mat4_mul(projection_matrix, view_matrix) {
            Some(m) => m,
            None => {
                return ;
            },
        };
        let n = orbit_points.len();
        let mut projected: Vec<Option<ScreenPoint>> = Vec::new();
        let mut i: usize = 0;
        while i < n
            invariant
                i <= n,
                n == orbit_points.len(),
                projected@.len() == i,
                forall|j: int|
                    0 <= j < i ==> #[trigger] projected@[j] == orbit_proj_s(
                        orbit_points@[j],
                        parent_position,
                        vp,
                        self.width as int,
                        self.height as int,
                    ),
            decreases n - i,
        {
            let pt = &orbit_points[i];
            let wx: i128 = pt.x as i128 + parent_position.x as i128;
            let wy: i128 = pt.y as i128 + parent_position.y as i128;
            let wz: i128 = pt.z as i128 + parent_position.z as i128;
            let sp: Option<ScreenPoint> = if -(WORLD_LIM as i128) <= wx && wx <= WORLD_LIM as i128
                && -(WORLD_LIM as i128) <= wy && wy <= WORLD_LIM as i128 && -(WORLD_LIM as i128)
                <= wz && wz <= WORLD_LIM as i128 {
                self.project_point(
                    &Vec3x { x: wx as i64, y: wy as i64, z: wz as i64 },
                    &vp,
                )
            } else {
                None
            };
            projected.push(sp);
            i = i + 1;
        }
        let ghost fb0 = framebuffer@;
        let mut k: usize = 0;
        while k < n
            invariant
                k <= n,
                framebuffer@ == orbit_segments_s(
                    fb0,
                    orbit_points@,
                    parent_position,
                    vp,
                    color,
                    self.width as int,
                    self.height as int,
                    k as nat,
                ),
                framebuffer@.wf(),
                framebuffer@.width == fb0.width,
                framebuffer@.height == fb0.height,
            decreases n - k,
        {
            let next: usize = (k + 1) % n;
            match (&projected[k], &projected[next]) {
                (Some(pa), Some(pb)) => {
                    self.draw_line(framebuffer, pa, pb, color);
                },
                _ => {},
            }
            k = k + 1;
        }
    }

    /// The coarse frustum visibility test; see `in_frustum_s`.
    pub fn is_in_frustum(
        &self,
        object_position: &Vec3x,
        object_radius: i64,
        view_matrix: &Mat4x,
        projection_matrix: &Mat4x,
    ) -> (r: bool)
        requires
            self.wf(),
            object_position.wf(),
            0 <= object_radius <= WORLD_LIM,
            view_matrix.wf(),
            projection_matrix.wf(),
        ensures
            r == in_frustum_s(*object_position, object_radius, *view_matrix, *projection_matrix),
    {
        let vp = match mat4_mul(projection_matrix, view_matrix) {
            Some(m) => m,
            None => {
                return false;
            },
        };
        let viewp = match mat4_apply(view_matrix, &point4(object_position)) {
            Some(v) => v,
            None => {
                return false;
            },
        };
        if viewp.z as i128 > 2 * (object_radius as i128) {
            return false;
        }
        let clip = match mat4_apply(&vp, &point4(object_position)) {
            Some(c) => c,
            None => {
                return false;
            },
        };
        if clip.w <= 0 {
            return false;
        }
        let screen_size: i128 = mul_wide(object_radius, FX_ONE) / (clip.w as i128);
        proof {
            lemma_tdiv_bounds(object_radius as int * FX_ONE as int, clip.w as int);
        }
        let doubled: i128 = 2 * screen_size;
        let margin: i128 = if doubled < FX_ONE as i128 {
            FX_ONE as i128
        } else if doubled > 20 * FX_ONE as i128 {
            20 * FX_ONE as i128
        } else {
            doubled
        };
        proof {
            lemma_mul_bound(clip.w as int, FX_ONE as int + margin as int, WORLD_LIM as int, 21 * FX_ONE as int);
        }
        let bound: i128 = (clip.w as i128) * (FX_ONE as i128 + margin);
        let cx: i128 = mul_wide(clip.x, FX_ONE);
        let cy: i128 = mul_wide(clip.y, FX_ONE);
        let cz: i128 = mul_wide(clip.z, FX_ONE);
        let xt = (if cx >= 0 { cx } else { -cx }) < bound;
        let yt = (if cy >= 0 { cy } else { -cy }) < bound;
        let zt = cz > -bound && clip.z < clip.w;
        xt && yt && zt
    }

    /// Whether an object is nearer to the camera than its radius scaled
    /// by the multiplier; see `too_close_s`.
    pub fn is_too_close_to_camera(
        &self,
        object_position: &Vec3x,
        object_radius: i64,
        camera_position: &Vec3x,
        min_distance_multiplier: i64,
    ) -> (r: bool)
        requires
            object_position.wf(),
            camera_position.wf(),
            -WORLD_LIM <= object_radius <= WORLD_LIM,
            -WORLD_LIM <= min_distance_multiplier <= WORLD_LIM,
        ensures
            r == too_close_s(
                *object_position,
                object_radius,
                *camera_position,
                min_distance_multiplier,
            ),
    {
        let dx: i64 = object_position.x - camera_position.x;
        let dy: i64 = object_position.y - camera_position.y;
        let dz: i64 = object_position.z - camera_position.z;
        let xx: i128 = mul_wide(dx, dx);
        let yy: i128 = mul_wide(dy, dy);
        let zz: i128 = mul_wide(dz, dz);
        proof {
            lemma_mul_bound(dx as int, dx as int, 2 * WORLD_LIM as int, 2 * WORLD_LIM as int);
            lemma_mul_bound(dy as int, dy as int, 2 * WORLD_LIM as int, 2 * WORLD_LIM as int);
            lemma_mul_bound(dz as int, dz as int, 2 * WORLD_LIM as int, 2 * WORLD_LIM as int);
            assert(dx as int * dx as int >= 0 && dy as int * dy as int >= 0 && dz as int * dz
                as int >= 0) by (nonlinear_arith);
        }
        let d2: i128 = xx + yy + zz;
        let dist: u128 = crate::fx::isqrt128(d2 as u128);
        proof {
            assert(dist < 0x8000_0000_0000_0000u128) by (nonlinear_arith)
                requires
                    dist * dist <= d2 as int,
                    d2 <= 0x10_0000_0000_0000_0000_0000_0000_0000i128,
            ;
        }
        let threshold: i128 = mul_wide(object_radius, min_distance_multiplier) / (FX_ONE as i128);
        (dist as i128) < threshold
    }

    /// The level of detail for a body at the given fixed-point
    /// distance: finer spheres nearer, in four tiers.
    pub fn calculate_lod(&self, distance: i64) -> (r: u32)
        ensures
            r == ({
                if distance < 5 * FX_ONE {
                    64u32
                } else if distance < 20 * FX_ONE {
                    32u32
                } else if distance < 50 * FX_ONE {
                    16u32
                } else {
                    8u32
                }
            }),
    {
        if distance < 5 * FX_ONE {
            64
        } else if distance < 20 * FX_ONE {
            32
        } else if distance < 50 * FX_ONE {
            16
        } else {
            8
        }
    }
}

} // verus!
