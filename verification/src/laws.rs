//! Laws of the pipeline: properties that hold of every render call,
//! stated over the same specification functions the renderer's
//! contracts use, and proved here once and for all.
//!
//! - culling: a clockwise or degenerate triangle writes nothing;
//! - coverage: the centroid of a front-facing triangle carries three
//!   nonnegative barycentric weights, and no pixel outside the clamped
//!   bounding box is ever touched;
//! - depth order: no depth-tested pass ever raises a stored depth;
//! - overlay: an overlay pass leaves the whole depth buffer untouched;
//! - bias: a biased fragment is written exactly when its shifted depth
//!   wins, and the shifted depth is what is stored;
//! - projection: a projected point is rejected for a non-positive
//!   homogeneous component or an out-of-range depth, and otherwise
//!   lands inside the viewport.

use vstd::prelude::*;

verus! {

use crate::color::Color;
use crate::framebuffer::FbView;
use crate::framebuffer::blend_pixel_s;
use crate::framebuffer::lemma_pixel_idx;
use crate::framebuffer::set_pixel_s;
use crate::fx::FX_ONE;
use crate::math::Mat4x;
use crate::math::Vec3x;
use crate::math::point4_s;
use crate::math::apply_ok_s;
use crate::math::apply_v_s;
use crate::renderer::RasterPolicy;
use crate::renderer::TransformedVertex;
use crate::renderer::bbox_hi_s;
use crate::renderer::bbox_lo_s;
use crate::renderer::cross2_s;
use crate::renderer::interp_s;
use crate::renderer::max3_s;
use crate::renderer::min3_s;
use crate::renderer::pix_center_s;
use crate::renderer::project_point_s;
use crate::renderer::raster_pixel_s;
use crate::renderer::raster_row_s;
use crate::renderer::raster_rows_s;
use crate::renderer::rasterize_triangle_s;
use crate::renderer::render_mesh_s;
use crate::renderer::render_tris_s;
use crate::renderer::transformed_seq_s;
use crate::renderer::tri_accepted_s;
use crate::renderer::tri_denom_s;
use crate::fx::tdiv;
use vstd::arithmetic::div_mod::lemma_div_multiples_vanish;
use crate::mesh::Vertex;
use crate::shaders::planet_shaders::PlanetShader;

/// Back-face culling: a triangle whose screen-space winding is clockwise
/// or degenerate — the cross product of its edges at most zero — writes
/// no pixel at all, whatever the shader, the policy or the depths.
pub proof fn lemma_backface_culled<S: PlanetShader>(
    fbv: FbView,
    v0: TransformedVertex,
    v1: TransformedVertex,
    v2: TransformedVertex,
    shader: S,
    time: i64,
    policy: RasterPolicy,
    width: int,
    height: int,
)
    requires
        tri_denom_s(v0, v1, v2) <= 0,
    ensures
        rasterize_triangle_s(fbv, v0, v1, v2, shader, time, policy, width, height) == fbv,
{
    assert(!tri_accepted_s(v0, v1, v2));
}

/// Barycentric coverage of the centroid: scaling a triangle by three
/// keeps its winding and gives its centroid exact integer coordinates,
/// and there all three barycentric weights are positive and equal —
/// each is three times the unscaled triangle's doubled area. The centroid of a
/// front-facing triangle is always covered.
pub proof fn lemma_centroid_covered(ax: int, ay: int, bx: int, by: int, cx: int, cy: int)
    requires
        cross2_s(ax, ay, bx, by, cx, cy) > 0,
    ensures
        ({
            let px = ax + bx + cx;
            let py = ay + by + cy;
            let e0 = cross2_s(px, py, 3 * bx, 3 * by, 3 * cx, 3 * cy);
            let e1 = cross2_s(3 * ax, 3 * ay, px, py, 3 * cx, 3 * cy);
            let e2 = cross2_s(3 * ax, 3 * ay, 3 * bx, 3 * by, px, py);
            &&& e0 == 3 * cross2_s(ax, ay, bx, by, cx, cy)
            &&& e1 == 3 * cross2_s(ax, ay, bx, by, cx, cy)
            &&& e2 == 3 * cross2_s(ax, ay, bx, by, cx, cy)
            &&& e0 > 0
            &&& e1 > 0
            &&& e2 > 0
        }),
{
    assert(cross2_s(ax + bx + cx, ay + by + cy, 3 * bx, 3 * by, 3 * cx, 3 * cy) == 3 * cross2_s(
        ax,
        ay,
        bx,
        by,
        cx,
        cy,
    )) by (nonlinear_arith);
    assert(cross2_s(3 * ax, 3 * ay, ax + bx + cx, ay + by + cy, 3 * cx, 3 * cy) == 3 * cross2_s(
        ax,
        ay,
        bx,
        by,
        cx,
        cy,
    )) by (nonlinear_arith);
    assert(cross2_s(3 * ax, 3 * ay, 3 * bx, 3 * by, ax + bx + cx, ay + by + cy) == 3 * cross2_s(
        ax,
        ay,
        bx,
        by,
        cx,
        cy,
    )) by (nonlinear_arith);
}


/// The three barycentric weight numerators at any point partition the
/// triangle's doubled area: their sum is exactly the coverage
/// denominator, so the weights of a covered pixel sum to one.
pub proof fn lemma_edge_sum(
    px: int,
    py: int,
    ax: int,
    ay: int,
    bx: int,
    by: int,
    cx: int,
    cy: int,
)
    ensures
        cross2_s(px, py, bx, by, cx, cy) + cross2_s(ax, ay, px, py, cx, cy) + cross2_s(
            ax,
            ay,
            bx,
            by,
            px,
            py,
        ) == cross2_s(ax, ay, bx, by, cx, cy),
{
    assert(cross2_s(px, py, bx, by, cx, cy) + cross2_s(ax, ay, px, py, cx, cy) + cross2_s(
        ax,
        ay,
        bx,
        by,
        px,
        py,
    ) == cross2_s(ax, ay, bx, by, cx, cy)) by (nonlinear_arith);
}

/// Interpolating an attribute that is equal at all three vertices gives
/// back exactly that value: barycentric interpolation is exact on
/// constants.
pub proof fn lemma_interp_constant(e0: int, e1: int, e2: int, a: int, denom: int)
    requires
        denom > 0,
        e0 + e1 + e2 == denom,
    ensures
        interp_s(e0, e1, e2, a, a, a, denom) == a,
{
    assert(e0 * a + e1 * a + e2 * a == denom * a) by (nonlinear_arith)
        requires
            e0 + e1 + e2 == denom,
    ;
    if a >= 0 {
        assert(denom * a >= 0) by (nonlinear_arith)
            requires
                denom > 0,
                a >= 0,
        ;
        lemma_div_multiples_vanish(a, denom);
    } else {
        assert(denom * a < 0 && -(denom * a) == denom * (-a)) by (nonlinear_arith)
            requires
                denom > 0,
                a < 0,
        ;
        lemma_div_multiples_vanish(-a, denom);
    }
}

/// Pixel `(x, y)` holds the same color bytes and depth in both views
/// (slot indices taken in the first view).
pub open spec fn pix_same(v1: FbView, v2: FbView, x: int, y: int) -> bool {
    &&& v2.depths[v1.idx(x, y)] == v1.depths[v1.idx(x, y)]
    &&& v2.colors[4 * v1.idx(x, y)] == v1.colors[4 * v1.idx(x, y)]
    &&& v2.colors[4 * v1.idx(x, y) + 1] == v1.colors[4 * v1.idx(x, y) + 1]
    &&& v2.colors[4 * v1.idx(x, y) + 2] == v1.colors[4 * v1.idx(x, y) + 2]
    &&& v2.colors[4 * v1.idx(x, y) + 3] == v1.colors[4 * v1.idx(x, y) + 3]
}

/// Distinct in-bounds pixels use distinct slots of the row-major
/// buffers.
proof fn lemma_idx_distinct(v: FbView, x: int, y: int, qx: int, qy: int)
    requires
        v.in_bounds(x, y),
        v.in_bounds(qx, qy),
        !(x == qx && y == qy),
    ensures
        v.idx(x, y) != v.idx(qx, qy),
        0 <= v.idx(x, y) < v.width * v.height,
        0 <= v.idx(qx, qy) < v.width * v.height,
{
    lemma_pixel_idx(v.width as int, v.height as int, x, y);
    lemma_pixel_idx(v.width as int, v.height as int, qx, qy);
    if y != qy {
        assert(y * v.width + x != qy * v.width + qx) by (nonlinear_arith)
            requires
                0 <= x < v.width,
                0 <= qx < v.width,
                y != qy,
                0 <= y,
                0 <= qy,
        ;
    }
}

/// A depth-tested write touches no other pixel and never raises the
/// depth of any pixel.
proof fn lemma_set_pixel_frame(v: FbView, x: int, y: int, c: Color, d: i64, qx: int, qy: int)
    requires
        v.wf(),
        v.in_bounds(qx, qy),
    ensures
        !(x == qx && y == qy) ==> pix_same(v, set_pixel_s(v, x, y, c, d), qx, qy),
        set_pixel_s(v, x, y, c, d).depths[v.idx(qx, qy)] <= v.depths[v.idx(qx, qy)],
        set_pixel_s(v, x, y, c, d).wf(),
        set_pixel_s(v, x, y, c, d).width == v.width,
        set_pixel_s(v, x, y, c, d).height == v.height,
{
    lemma_pixel_idx(v.width as int, v.height as int, qx, qy);
    if v.in_bounds(x, y) {
        lemma_pixel_idx(v.width as int, v.height as int, x, y);
        assert(4 * v.idx(x, y) + 3 < 4 * (v.width * v.height));
        if !(x == qx && y == qy) {
            lemma_idx_distinct(v, x, y, qx, qy);
        }
    }
}

/// An overlay blend touches no other pixel and no depth at all.
proof fn lemma_blend_pixel_frame(v: FbView, x: int, y: int, c: Color, qx: int, qy: int)
    requires
        v.wf(),
        v.in_bounds(qx, qy),
    ensures
        !(x == qx && y == qy) ==> pix_same(v, blend_pixel_s(v, x, y, c), qx, qy),
        blend_pixel_s(v, x, y, c).depths == v.depths,
        blend_pixel_s(v, x, y, c).wf(),
        blend_pixel_s(v, x, y, c).width == v.width,
        blend_pixel_s(v, x, y, c).height == v.height,
{
    lemma_pixel_idx(v.width as int, v.height as int, qx, qy);
    if v.in_bounds(x, y) {
        lemma_pixel_idx(v.width as int, v.height as int, x, y);
        assert(4 * v.idx(x, y) + 3 < 4 * (v.width * v.height));
        if !(x == qx && y == qy) {
            lemma_idx_distinct(v, x, y, qx, qy);
        }
    }
}

/// One rasterized pixel is either no change, one depth-tested write at
/// its own coordinates, or one overlay blend at its own coordinates —
/// and the latter only under the overlay policy.
proof fn lemma_raster_pixel_shape<S: PlanetShader>(
    fbv: FbView,
    v0: TransformedVertex,
    v1: TransformedVertex,
    v2: TransformedVertex,
    shader: S,
    time: i64,
    policy: RasterPolicy,
    x: int,
    y: int,
)
    ensures
        ({
            let out = raster_pixel_s(fbv, v0, v1, v2, shader, time, policy, x, y);
            ||| out == fbv
            ||| (policy is Test && exists|c: Color, d: i64|
                out == #[trigger] set_pixel_s(fbv, x, y, c, d))
            ||| (policy is Overlay && exists|c: Color| out == #[trigger] blend_pixel_s(
                fbv,
                x,
                y,
                c,
            ))
        }),
{
}

/// The frame property of one rasterized pixel: dimensions and
/// well-formedness kept, all other pixels kept, no depth raised, and
/// under the overlay policy all depths kept exactly.
proof fn lemma_raster_pixel_frame<S: PlanetShader>(
    fbv: FbView,
    v0: TransformedVertex,
    v1: TransformedVertex,
    v2: TransformedVertex,
    shader: S,
    time: i64,
    policy: RasterPolicy,
    x: int,
    y: int,
    qx: int,
    qy: int,
)
    requires
        fbv.wf(),
        fbv.in_bounds(qx, qy),
    ensures
        ({
            let out = raster_pixel_s(fbv, v0, v1, v2, shader, time, policy, x, y);
            &&& out.wf()
            &&& out.width == fbv.width
            &&& out.height == fbv.height
            &&& !(x == qx && y == qy) ==> pix_same(fbv, out, qx, qy)
            &&& out.depths[fbv.idx(qx, qy)] <= fbv.depths[fbv.idx(qx, qy)]
            &&& policy is Overlay ==> out.depths == fbv.depths
        }),
{
    lemma_pixel_idx(fbv.width as int, fbv.height as int, qx, qy);
    lemma_raster_pixel_shape(fbv, v0, v1, v2, shader, time, policy, x, y);
    let out = raster_pixel_s(fbv, v0, v1, v2, shader, time, policy, x, y);
    if out != fbv {
        if policy is Test {
            let (c, d) = choose|c: Color, d: i64| out == set_pixel_s(fbv, x, y, c, d);
            lemma_set_pixel_frame(fbv, x, y, c, d, qx, qy);
        } else {
            let c = choose|c: Color| out == blend_pixel_s(fbv, x, y, c);
            lemma_blend_pixel_frame(fbv, x, y, c, qx, qy);
        }
    }
}

/// The frame property of one rasterized row: pixels off the row's span
/// are kept, no depth is raised, and the overlay policy keeps all
/// depths.
proof fn lemma_raster_row_frame<S: PlanetShader>(
    fbv: FbView,
    v0: TransformedVertex,
    v1: TransformedVertex,
    v2: TransformedVertex,
    shader: S,
    time: i64,
    policy: RasterPolicy,
    y: int,
    x0: int,
    n: nat,
    qx: int,
    qy: int,
)
    requires
        fbv.wf(),
        fbv.in_bounds(qx, qy),
    ensures
        ({
            let out = raster_row_s(fbv, v0, v1, v2, shader, time, policy, y, x0, n);
            &&& out.wf()
            &&& out.width == fbv.width
            &&& out.height == fbv.height
            &&& !(qy == y && x0 <= qx < x0 + n) ==> pix_same(fbv, out, qx, qy)
            &&& out.depths[fbv.idx(qx, qy)] <= fbv.depths[fbv.idx(qx, qy)]
            &&& policy is Overlay ==> out.depths == fbv.depths
        }),
    decreases n,
{
    if n > 0 {
        lemma_raster_row_frame(fbv, v0, v1, v2, shader, time, policy, y, x0, (n - 1) as nat, qx, qy);
        let mid = raster_row_s(fbv, v0, v1, v2, shader, time, policy, y, x0, (n - 1) as nat);
        lemma_raster_pixel_frame(mid, v0, v1, v2, shader, time, policy, x0 + n - 1, y, qx, qy);
    }
}

/// The frame property of a block of rasterized rows.
proof fn lemma_raster_rows_frame<S: PlanetShader>(
    fbv: FbView,
    v0: TransformedVertex,
    v1: TransformedVertex,
    v2: TransformedVertex,
    shader: S,
    time: i64,
    policy: RasterPolicy,
    y0: int,
    rows: nat,
    x0: int,
    cols: nat,
    qx: int,
    qy: int,
)
    requires
        fbv.wf(),
        fbv.in_bounds(qx, qy),
    ensures
        ({
            let out = raster_rows_s(fbv, v0, v1, v2, shader, time, policy, y0, rows, x0, cols);
            &&& out.wf()
            &&& out.width == fbv.width
            &&& out.height == fbv.height
            &&& !(y0 <= qy < y0 + rows && x0 <= qx < x0 + cols) ==> pix_same(fbv, out, qx, qy)
            &&& out.depths[fbv.idx(qx, qy)] <= fbv.depths[fbv.idx(qx, qy)]
            &&& policy is Overlay ==> out.depths == fbv.depths
        }),
    decreases rows,
{
    if rows > 0 {
        lemma_raster_rows_frame(
            fbv,
            v0,
            v1,
            v2,
            shader,
            time,
            policy,
            y0,
            (rows - 1) as nat,
            x0,
            cols,
            qx,
            qy,
        );
        let mid = raster_rows_s(fbv, v0, v1, v2, shader, time, policy, y0, (rows - 1) as nat, x0, cols);
        lemma_raster_row_frame(
            mid,
            v0,
            v1,
            v2,
            shader,
            time,
            policy,
            y0 + rows - 1,
            x0,
            cols,
            qx,
            qy,
        );
    }
}


/// Dimensions, well-formedness and — under the overlay policy — the
/// whole depth buffer survive one rasterized pixel.
proof fn lemma_raster_pixel_dims<S: PlanetShader>(
    fbv: FbView,
    v0: TransformedVertex,
    v1: TransformedVertex,
    v2: TransformedVertex,
    shader: S,
    time: i64,
    policy: RasterPolicy,
    x: int,
    y: int,
)
    requires
        fbv.wf(),
    ensures
        ({
            let out = raster_pixel_s(fbv, v0, v1, v2, shader, time, policy, x, y);
            &&& out.wf()
            &&& out.width == fbv.width
            &&& out.height == fbv.height
            &&& policy is Overlay ==> out.depths == fbv.depths
        }),
{
    lemma_raster_pixel_shape(fbv, v0, v1, v2, shader, time, policy, x, y);
    let out = raster_pixel_s(fbv, v0, v1, v2, shader, time, policy, x, y);
    if out != fbv {
        if fbv.in_bounds(x, y) {
            lemma_pixel_idx(fbv.width as int, fbv.height as int, x, y);
            assert(4 * fbv.idx(x, y) + 3 < 4 * (fbv.width * fbv.height));
        }
    }
}

/// The same, over a row.
proof fn lemma_raster_row_dims<S: PlanetShader>(
    fbv: FbView,
    v0: TransformedVertex,
    v1: TransformedVertex,
    v2: TransformedVertex,
    shader: S,
    time: i64,
    policy: RasterPolicy,
    y: int,
    x0: int,
    n: nat,
)
    requires
        fbv.wf(),
    ensures
        ({
            let out = raster_row_s(fbv, v0, v1, v2, shader, time, policy, y, x0, n);
            &&& out.wf()
            &&& out.width == fbv.width
            &&& out.height == fbv.height
            &&& policy is Overlay ==> out.depths == fbv.depths
        }),
    decreases n,
{
    if n > 0 {
        lemma_raster_row_dims(fbv, v0, v1, v2, shader, time, policy, y, x0, (n - 1) as nat);
        let mid = raster_row_s(fbv, v0, v1, v2, shader, time, policy, y, x0, (n - 1) as nat);
        lemma_raster_pixel_dims(mid, v0, v1, v2, shader, time, policy, x0 + n - 1, y);
    }
}

/// The same, over a block of rows.
proof fn lemma_raster_rows_dims<S: PlanetShader>(
    fbv: FbView,
    v0: TransformedVertex,
    v1: TransformedVertex,
    v2: TransformedVertex,
    shader: S,
    time: i64,
    policy: RasterPolicy,
    y0: int,
    rows: nat,
    x0: int,
    cols: nat,
)
    requires
        fbv.wf(),
    ensures
        ({
            let out = raster_rows_s(fbv, v0, v1, v2, shader, time, policy, y0, rows, x0, cols);
            &&& out.wf()
            &&& out.width == fbv.width
            &&& out.height == fbv.height
            &&& policy is Overlay ==> out.depths == fbv.depths
        }),
    decreases rows,
{
    if rows > 0 {
        lemma_raster_rows_dims(fbv, v0, v1, v2, shader, time, policy, y0, (rows - 1) as nat, x0, cols);
        let mid = raster_rows_s(fbv, v0, v1, v2, shader, time, policy, y0, (rows - 1) as nat, x0, cols);
        lemma_raster_row_dims(mid, v0, v1, v2, shader, time, policy, y0 + rows - 1, x0, cols);
    }
}

/// The same, over a whole triangle.
proof fn lemma_triangle_dims<S: PlanetShader>(
    fbv: FbView,
    v0: TransformedVertex,
    v1: TransformedVertex,
    v2: TransformedVertex,
    shader: S,
    time: i64,
    policy: RasterPolicy,
    width: int,
    height: int,
)
    requires
        fbv.wf(),
    ensures
        ({
            let out = rasterize_triangle_s(fbv, v0, v1, v2, shader, time, policy, width, height);
            &&& out.wf()
            &&& out.width == fbv.width
            &&& out.height == fbv.height
            &&& policy is Overlay ==> out.depths == fbv.depths
        }),
{
    if tri_accepted_s(v0, v1, v2) {
        let min_x = bbox_lo_s(min3_s(v0.sx as int, v1.sx as int, v2.sx as int));
        let max_x = bbox_hi_s(max3_s(v0.sx as int, v1.sx as int, v2.sx as int), width - 1);
        let min_y = bbox_lo_s(min3_s(v0.sy as int, v1.sy as int, v2.sy as int));
        let max_y = bbox_hi_s(max3_s(v0.sy as int, v1.sy as int, v2.sy as int), height - 1);
        if !(min_x >= max_x || min_y >= max_y) {
            lemma_raster_rows_dims(
                fbv,
                v0,
                v1,
                v2,
                shader,
                time,
                policy,
                min_y,
                (max_y + 1 - min_y) as nat,
                min_x,
                (max_x + 1 - min_x) as nat,
            );
        }
    }
}

/// The same, over a run of triangles.
proof fn lemma_tris_dims<S: PlanetShader>(
    fbv: FbView,
    tv: Seq<TransformedVertex>,
    idx: Seq<u32>,
    shader: S,
    time: i64,
    policy: RasterPolicy,
    width: int,
    height: int,
    k: nat,
)
    requires
        fbv.wf(),
    ensures
        ({
            let out = render_tris_s(fbv, tv, idx, shader, time, policy, width, height, k);
            &&& out.wf()
            &&& out.width == fbv.width
            &&& out.height == fbv.height
            &&& policy is Overlay ==> out.depths == fbv.depths
        }),
    decreases k,
{
    if k > 0 {
        lemma_tris_dims(fbv, tv, idx, shader, time, policy, width, height, (k - 1) as nat);
        let mid = render_tris_s(fbv, tv, idx, shader, time, policy, width, height, (k - 1) as nat);
        lemma_triangle_dims(
            mid,
            tv[idx[3 * (k - 1)] as int],
            tv[idx[3 * (k - 1) + 1] as int],
            tv[idx[3 * (k - 1) + 2] as int],
            shader,
            time,
            policy,
            width,
            height,
        );
    }
}

/// Bounding-box confinement: a triangle fill touches no pixel outside
/// the clamped bounding box of its three screen positions; and whatever
/// it touches, it never raises a stored depth, and under the overlay
/// policy it keeps every depth exactly.
pub proof fn lemma_triangle_frame<S: PlanetShader>(
    fbv: FbView,
    v0: TransformedVertex,
    v1: TransformedVertex,
    v2: TransformedVertex,
    shader: S,
    time: i64,
    policy: RasterPolicy,
    width: int,
    height: int,
    qx: int,
    qy: int,
)
    requires
        fbv.wf(),
        fbv.in_bounds(qx, qy),
    ensures
        ({
            let out = rasterize_triangle_s(fbv, v0, v1, v2, shader, time, policy, width, height);
            let min_x = bbox_lo_s(min3_s(v0.sx as int, v1.sx as int, v2.sx as int));
            let max_x = bbox_hi_s(max3_s(v0.sx as int, v1.sx as int, v2.sx as int), width - 1);
            let min_y = bbox_lo_s(min3_s(v0.sy as int, v1.sy as int, v2.sy as int));
            let max_y = bbox_hi_s(max3_s(v0.sy as int, v1.sy as int, v2.sy as int), height - 1);
            &&& out.wf()
            &&& out.width == fbv.width
            &&& out.height == fbv.height
            &&& !(min_x <= qx <= max_x && min_y <= qy <= max_y) ==> pix_same(fbv, out, qx, qy)
            &&& out.depths[fbv.idx(qx, qy)] <= fbv.depths[fbv.idx(qx, qy)]
            &&& policy is Overlay ==> out.depths == fbv.depths
        }),
{
    if tri_accepted_s(v0, v1, v2) {
        let min_x = bbox_lo_s(min3_s(v0.sx as int, v1.sx as int, v2.sx as int));
        let max_x = bbox_hi_s(max3_s(v0.sx as int, v1.sx as int, v2.sx as int), width - 1);
        let min_y = bbox_lo_s(min3_s(v0.sy as int, v1.sy as int, v2.sy as int));
        let max_y = bbox_hi_s(max3_s(v0.sy as int, v1.sy as int, v2.sy as int), height - 1);
        if !(min_x >= max_x || min_y >= max_y) {
            lemma_raster_rows_frame(
                fbv,
                v0,
                v1,
                v2,
                shader,
                time,
                policy,
                min_y,
                (max_y + 1 - min_y) as nat,
                min_x,
                (max_x + 1 - min_x) as nat,
                qx,
                qy,
            );
        }
    }
}

/// The frame property of a run of triangles.
proof fn lemma_tris_frame<S: PlanetShader>(
    fbv: FbView,
    tv: Seq<TransformedVertex>,
    idx: Seq<u32>,
    shader: S,
    time: i64,
    policy: RasterPolicy,
    width: int,
    height: int,
    k: nat,
    qx: int,
    qy: int,
)
    requires
        fbv.wf(),
        fbv.in_bounds(qx, qy),
    ensures
        ({
            let out = render_tris_s(fbv, tv, idx, shader, time, policy, width, height, k);
            &&& out.wf()
            &&& out.width == fbv.width
            &&& out.height == fbv.height
            &&& out.depths[fbv.idx(qx, qy)] <= fbv.depths[fbv.idx(qx, qy)]
            &&& policy is Overlay ==> out.depths == fbv.depths
        }),
    decreases k,
{
    if k > 0 {
        lemma_tris_frame(fbv, tv, idx, shader, time, policy, width, height, (k - 1) as nat, qx, qy);
        let mid = render_tris_s(fbv, tv, idx, shader, time, policy, width, height, (k - 1) as nat);
        lemma_triangle_frame(
            mid,
            tv[idx[3 * (k - 1)] as int],
            tv[idx[3 * (k - 1) + 1] as int],
            tv[idx[3 * (k - 1) + 2] as int],
            shader,
            time,
            policy,
            width,
            height,
            qx,
            qy,
        );
    }
}

/// Nearest-wins across a whole render call: a depth-tested pass —
/// standard or biased — never raises the stored depth of any pixel.
/// Within one clear-to-clear epoch, depths are monotonically
/// non-increasing however many meshes are drawn.
pub proof fn lemma_render_depths_monotone<S: PlanetShader>(
    fbv: FbView,
    verts: Seq<Vertex>,
    idx: Seq<u32>,
    shader: S,
    model: Mat4x,
    view: Mat4x,
    proj: Mat4x,
    time: i64,
    policy: RasterPolicy,
    width: int,
    height: int,
    qx: int,
    qy: int,
)
    requires
        fbv.wf(),
        fbv.in_bounds(qx, qy),
    ensures
        ({
            let out = render_mesh_s(
                fbv,
                verts,
                idx,
                shader,
                model,
                view,
                proj,
                time,
                policy,
                width,
                height,
            );
            out.depths[fbv.idx(qx, qy)] <= fbv.depths[fbv.idx(qx, qy)]
        }),
{
    let out = render_mesh_s(fbv, verts, idx, shader, model, view, proj, time, policy, width, height);
    if out != fbv {
        lemma_tris_frame(
            fbv,
            transformed_seq_s(
                verts,
                model,
                crate::math::mul_v_s(crate::math::mul_v_s(proj, view), model),
                width,
                height,
            ),
            idx,
            shader,
            time,
            policy,
            width,
            height,
            (idx.len() / 3) as nat,
            qx,
            qy,
        );
    }
}

/// The overlay policy never mutates the depth buffer: after an overlay
/// render call the depth buffer equals its prior state exactly.
pub proof fn lemma_overlay_keeps_depths<S: PlanetShader>(
    fbv: FbView,
    verts: Seq<Vertex>,
    idx: Seq<u32>,
    shader: S,
    model: Mat4x,
    view: Mat4x,
    proj: Mat4x,
    time: i64,
    width: int,
    height: int,
)
    requires
        fbv.wf(),
    ensures
        render_mesh_s(
            fbv,
            verts,
            idx,
            shader,
            model,
            view,
            proj,
            time,
            RasterPolicy::Overlay,
            width,
            height,
        ).depths == fbv.depths,
{
    let out = render_mesh_s(
        fbv,
        verts,
        idx,
        shader,
        model,
        view,
        proj,
        time,
        RasterPolicy::Overlay,
        width,
        height,
    );
    if out != fbv {
        lemma_tris_dims(
            fbv,
            transformed_seq_s(
                verts,
                model,
                crate::math::mul_v_s(crate::math::mul_v_s(proj, view), model),
                width,
                height,
            ),
            idx,
            shader,
            time,
            RasterPolicy::Overlay,
            width,
            height,
            (idx.len() / 3) as nat,
        );
    }
}

/// The biased policy shifts the effective comparison depth by exactly
/// the bias: a covered fragment whose attributes pass their range
/// checks is written exactly when its interpolated depth plus the bias
/// is in range and strictly below the stored depth, and the stored
/// depth afterwards is exactly the shifted value.
pub proof fn lemma_bias_shifts_depth<S: PlanetShader>(
    fbv: FbView,
    v0: TransformedVertex,
    v1: TransformedVertex,
    v2: TransformedVertex,
    shader: S,
    time: i64,
    bias: i64,
    x: int,
    y: int,
)
    requires
        fbv.wf(),
        fbv.in_bounds(x, y),
    ensures
        ({
            let px = pix_center_s(x);
            let py = pix_center_s(y);
            let e0 = cross2_s(px, py, v1.sx as int, v1.sy as int, v2.sx as int, v2.sy as int);
            let e1 = cross2_s(v0.sx as int, v0.sy as int, px, py, v2.sx as int, v2.sy as int);
            let e2 = cross2_s(v0.sx as int, v0.sy as int, v1.sx as int, v1.sy as int, px, py);
            let denom = tri_denom_s(v0, v1, v2);
            let d = interp_s(e0, e1, e2, v0.depth as int, v1.depth as int, v2.depth as int, denom);
            let db = d + bias;
            let out = raster_pixel_s(
                fbv,
                v0,
                v1,
                v2,
                shader,
                time,
                RasterPolicy::Test { bias },
                x,
                y,
            );
            (e0 >= 0 && e1 >= 0 && e2 >= 0 && -(FX_ONE as int) <= db <= FX_ONE as int) ==> {
                &&& db < fbv.depths[fbv.idx(x, y)] && frag_world_ok(e0, e1, e2, v0, v1, v2, denom)
                    ==> out.depths[fbv.idx(x, y)] == db
                &&& !(db < fbv.depths[fbv.idx(x, y)]) ==> out.depths == fbv.depths
            }
        }),
{
    lemma_pixel_idx(fbv.width as int, fbv.height as int, x, y);
}

/// Whether the interpolated world position of a fragment passes its
/// range checks.
pub open spec fn frag_world_ok(
    e0: int,
    e1: int,
    e2: int,
    v0: TransformedVertex,
    v1: TransformedVertex,
    v2: TransformedVertex,
    denom: int,
) -> bool {
    &&& crate::math::fits_world(
        interp_s(e0, e1, e2, v0.world.x as int, v1.world.x as int, v2.world.x as int, denom),
    )
    &&& crate::math::fits_world(
        interp_s(e0, e1, e2, v0.world.y as int, v1.world.y as int, v2.world.y as int, denom),
    )
    &&& crate::math::fits_world(
        interp_s(e0, e1, e2, v0.world.z as int, v1.world.z as int, v2.world.z as int, denom),
    )
}

/// Point projection rejects every point whose clip-space homogeneous
/// component is not strictly positive and every point whose depth falls
/// outside normalized range; whatever it accepts lands inside the
/// viewport.
pub proof fn lemma_project_point_bounds(p: Vec3x, vp: Mat4x, width: int, height: int)
    requires
        0 <= width <= 4096,
        0 <= height <= 4096,
    ensures
        apply_ok_s(vp, point4_s(p)) && apply_v_s(vp, point4_s(p)).w <= 0 ==> project_point_s(
            p,
            vp,
            width,
            height,
        ) is None,
        ({
            let clip = apply_v_s(vp, point4_s(p));
            let ndc_z = tdiv(clip.z * FX_ONE, clip.w as int);
            apply_ok_s(vp, point4_s(p)) && clip.w > 0 && !(-(FX_ONE as int) <= ndc_z <= FX_ONE
                as int) ==> project_point_s(p, vp, width, height) is None
        }),
        project_point_s(p, vp, width, height) is Some ==> {
            &&& 0 <= project_point_s(p, vp, width, height)->0.x < width * FX_ONE
            &&& 0 <= project_point_s(p, vp, width, height)->0.y < height * FX_ONE
        },
{
}

} // verus!
