//! The owned framebuffer: a color buffer and a per-pixel depth buffer,
//! with clear, a depth-tested pixel write and an overlay blend.
//!
//! Depth values live in normalized device coordinates, where `-FX_ONE`
//! is the near plane and `FX_ONE` the far plane. A cleared depth slot
//! holds `DEPTH_FAR`, a sentinel strictly beyond every representable
//! depth, so the first fragment at a pixel always wins.

use vstd::prelude::*;

verus! {

use crate::color::Color;

/// The "infinitely far" depth sentinel a clear writes into every slot.
/// No fragment carries this depth, so any write beats a cleared pixel.
pub const DEPTH_FAR: i64 = i64::MAX;

/// Overlay threshold: a pixel whose stored depth is below this value
/// (nine tenths of a unit before the near plane) already holds content at
/// point-blank range, and an overlay fragment leaves it alone.
pub const OVERLAY_NEAR: i64 = -58982;

/// Largest framebuffer dimension, so that pixel indices and fixed-point
/// screen coordinates stay comfortably within their integer ranges.
pub const MAX_DIM: usize = 4096;

/// The mathematical state of a framebuffer: its dimensions, the color
/// bytes (four per pixel, row-major) and the depth slots (one per pixel).
pub struct FbView {
    pub width: nat,
    pub height: nat,
    pub colors: Seq<u8>,
    pub depths: Seq<i64>,
}

impl FbView {
    /// Buffers sized to the dimensions, which stay within `MAX_DIM`.
    pub open spec fn wf(self) -> bool {
        &&& self.width <= MAX_DIM
        &&& self.height <= MAX_DIM
        &&& self.colors.len() == self.width * self.height * 4
        &&& self.depths.len() == self.width * self.height
    }

    /// The slot index of pixel `(x, y)`.
    pub open spec fn idx(self, x: int, y: int) -> int {
        y * self.width + x
    }

    /// Whether `(x, y)` lies inside the framebuffer.
    pub open spec fn in_bounds(self, x: int, y: int) -> bool {
        0 <= x < self.width && 0 <= y < self.height
    }
}

/// The color bytes after pixel `pix` is written with `c` at full opacity.
pub open spec fn write_rgba_s(colors: Seq<u8>, pix: int, c: Color) -> Seq<u8> {
    colors.update(4 * pix, c.r).update(4 * pix + 1, c.g).update(4 * pix + 2, c.b).update(
        4 * pix + 3,
        255u8,
    )
}

/// The depth-tested pixel write: out-of-bounds writes change nothing, and
/// an in-bounds write lands exactly when its depth is strictly below the
/// stored depth — the nearer fragment wins, ties lose.
pub open spec fn set_pixel_s(v: FbView, x: int, y: int, c: Color, depth: i64) -> FbView {
    if v.in_bounds(x, y) && depth < v.depths[v.idx(x, y)] {
        FbView {
            colors: write_rgba_s(v.colors, v.idx(x, y), c),
            depths: v.depths.update(v.idx(x, y), depth),
            ..v
        }
    } else {
        v
    }
}

/// One channel of the overlay blend: ninety-five parts new color to five
/// parts old.
pub open spec fn blend_channel_s(new: int, old: int) -> int {
    (new * 95 + old * 5) / 100
}

/// The overlay pixel write: no depth test and no depth write. A pixel
/// whose stored depth is already below `OVERLAY_NEAR` is left alone;
/// otherwise the color is blended in and the depth slot is untouched.
pub open spec fn blend_pixel_s(v: FbView, x: int, y: int, c: Color) -> FbView {
    if v.in_bounds(x, y) && v.depths[v.idx(x, y)] >= OVERLAY_NEAR {
        let p = v.idx(x, y);
        let colors = v.colors.update(
            4 * p,
            blend_channel_s(c.r as int, v.colors[4 * p] as int) as u8,
        ).update(4 * p + 1, blend_channel_s(c.g as int, v.colors[4 * p + 1] as int) as u8).update(
            4 * p + 2,
            blend_channel_s(c.b as int, v.colors[4 * p + 2] as int) as u8,
        ).update(4 * p + 3, 255u8);
        FbView { colors, ..v }
    } else {
        v
    }
}

/// Pixel `p` holds exactly the clear color at full opacity, with its
/// depth slot at the far sentinel.
pub open spec fn cleared_pix(v: FbView, c: Color, p: int) -> bool {
    &&& v.colors[4 * p] == c.r
    &&& v.colors[4 * p + 1] == c.g
    &&& v.colors[4 * p + 2] == c.b
    &&& v.colors[4 * p + 3] == 255u8
    &&& v.depths[p] == DEPTH_FAR
}

/// A pixel index is within the slot count.
pub proof fn lemma_pixel_idx(w: int, h: int, x: int, y: int)
    by (nonlinear_arith)
    requires
        0 <= x < w,
        0 <= y < h,
    ensures
        0 <= y * w + x < w * h,
{
}

/// Dimensions within `MAX_DIM` give buffer sizes well within `usize`.
pub proof fn lemma_dim_bounds(w: int, h: int)
    by (nonlinear_arith)
    requires
        0 <= w <= MAX_DIM,
        0 <= h <= MAX_DIM,
    ensures
        0 <= w * h <= 0x100_0000,
{
}

/// The software framebuffer: `width * height` pixels, four color bytes
/// and one depth slot per pixel, both row-major.
pub struct Framebuffer {
    /// Width in pixels.
    pub width: usize,
    /// Height in pixels.
    pub height: usize,
    /// Color bytes, red, green, blue, alpha per pixel.
    pub buffer: Vec<u8>,
    /// Depth slot per pixel.
    pub zbuffer: Vec<i64>,
}

impl View for Framebuffer {
    type V = FbView;

    open spec fn view(&self) -> FbView {
        FbView {
            width: self.width as nat,
            height: self.height as nat,
            colors: self.buffer@,
            depths: self.zbuffer@,
        }
    }
}

impl Framebuffer {
    /// A framebuffer of the given dimensions: colors zeroed (transparent
    /// black) and every depth slot at the far sentinel.
    pub fn new(width: usize, height: usize) -> (fb: Framebuffer)
        requires
            width <= MAX_DIM,
            height <= MAX_DIM,
        ensures
            fb@.wf(),
            fb.width == width,
            fb.height == height,
            forall|i: int| 0 <= i < fb@.colors.len() ==> fb@.colors[i] == 0u8,
            forall|i: int| 0 <= i < fb@.depths.len() ==> fb@.depths[i] == DEPTH_FAR,
    {
        proof {
            lemma_dim_bounds(width as int, height as int);
        }
        let pixels: usize = width * height;
        Framebuffer {
            width,
            height,
            buffer: vec![0u8; pixels * 4],
            zbuffer: vec![DEPTH_FAR; pixels],
        }
    }

    /// Resets every pixel to `color` at full opacity and every depth slot
    /// to the far sentinel. Must run before each frame's draws, or stale
    /// depths from the previous frame occlude new content.
    pub fn clear(&mut self, color: Color)
        requires
            old(self)@.wf(),
        ensures
            final(self)@.wf(),
            final(self).width == old(self).width,
            final(self).height == old(self).height,
            forall|p: int|
                0 <= p < final(self)@.depths.len() ==> cleared_pix(final(self)@, color, p),
    {
        proof {
            lemma_dim_bounds(self.width as int, self.height as int);
        }
        let pixels: usize = self.width * self.height;
        let mut i: usize = 0;
        while i < pixels
            invariant
                i <= pixels,
                self.width == old(self).width,
                self.height == old(self).height,
                pixels == self.width * self.height,
                pixels <= 0x100_0000,
                self.buffer.len() == pixels * 4,
                self.zbuffer.len() == pixels,
                forall|p: int| 0 <= p < i ==> cleared_pix(self@, color, p),
            decreases pixels - i,
        {
            let ghost pre = self@;
            let b: usize = i * 4;
            self.buffer[b] = color.r;
            self.buffer[b + 1] = color.g;
            self.buffer[b + 2] = color.b;
            self.buffer[b + 3] = 255;
            self.zbuffer[i] = DEPTH_FAR;
            proof {
                assert forall|p: int| 0 <= p < i + 1 implies cleared_pix(self@, color, p) by {
                    if p < i {
                        assert(cleared_pix(pre, color, p));
                    }
                }
            }
            i = i + 1;
        }
    }

    /// The authoritative depth-tested compositing primitive: writes
    /// `color` and `depth` at `(x, y)` exactly when the pixel is in
    /// bounds and `depth` is strictly nearer than the stored depth;
    /// otherwise the framebuffer is unchanged.
    pub fn set_pixel(&mut self, x: usize, y: usize, color: Color, depth: i64)
        requires
            old(self)@.wf(),
        ensures
            final(self)@ == set_pixel_s(old(self)@, x as int, y as int, color, depth),
            final(self)@.wf(),
    {
        if x >= self.width || y >= self.height {
            return ;
        }
        proof {
            lemma_dim_bounds(self.width as int, self.height as int);
            lemma_pixel_idx(self.width as int, self.height as int, x as int, y as int);
        }
        let index: usize = y * self.width + x;
        if depth < self.zbuffer[index] {
            self.zbuffer[index] = depth;
            let b: usize = index * 4;
            self.buffer[b] = color.r;
            self.buffer[b + 1] = color.g;
            self.buffer[b + 2] = color.b;
            self.buffer[b + 3] = 255;
        }
    }

    /// The overlay compositing primitive: blends `color` into the stored
    /// color at ninety-five percent weight, never writes the depth slot,
    /// and leaves pixels alone whose stored depth is already below
    /// `OVERLAY_NEAR`.
    pub fn blend_pixel(&mut self, x: usize, y: usize, color: Color)
        requires
            old(self)@.wf(),
        ensures
            final(self)@ == blend_pixel_s(old(self)@, x as int, y as int, color),
            final(self)@.wf(),
            final(self)@.depths == old(self)@.depths,
    {
        if x >= self.width || y >= self.height {
            return ;
        }
        proof {
            lemma_dim_bounds(self.width as int, self.height as int);
            lemma_pixel_idx(self.width as int, self.height as int, x as int, y as int);
        }
        let index: usize = y * self.width + x;
        if self.zbuffer[index] < OVERLAY_NEAR {
            return ;
        }
        let b: usize = index * 4;
        let old_r: u32 = self.buffer[b] as u32;
        let old_g: u32 = self.buffer[b + 1] as u32;
        let old_b: u32 = self.buffer[b + 2] as u32;
        self.buffer[b] = ((color.r as u32 * 95 + old_r * 5) / 100) as u8;
        self.buffer[b + 1] = ((color.g as u32 * 95 + old_g * 5) / 100) as u8;
        self.buffer[b + 2] = ((color.b as u32 * 95 + old_b * 5) / 100) as u8;
        self.buffer[b + 3] = 255;
    }

    /// The color bytes, for the presentation layer.
    pub fn as_bytes(&self) -> (bytes: &[u8])
        ensures
            bytes@ == self@.colors,
    {
        self.buffer.as_slice()
    }
}

/// Nearest-wins, first half: a depth-tested write never raises any
/// stored depth, so within one clear-to-clear epoch the depth at each
/// pixel is monotonically non-increasing.
pub proof fn lemma_depth_monotone(v: FbView, x: int, y: int, c: Color, depth: i64)
    requires
        v.wf(),
    ensures
        forall|p: int|
            0 <= p < v.depths.len() ==> #[trigger] set_pixel_s(v, x, y, c, depth).depths[p]
                <= v.depths[p],
{
    if v.in_bounds(x, y) {
        lemma_pixel_idx(v.width as int, v.height as int, x, y);
    }
}

/// Nearest-wins, second half: after a write at depth `d1` has landed,
/// a second write at the same pixel lands exactly when `d2 < d1`, and
/// otherwise changes nothing at all.
pub proof fn lemma_second_write_wins_iff(
    v: FbView,
    x: int,
    y: int,
    c1: Color,
    d1: i64,
    c2: Color,
    d2: i64,
)
    requires
        v.wf(),
        v.in_bounds(x, y),
        d1 < v.depths[v.idx(x, y)],
    ensures
        set_pixel_s(v, x, y, c1, d1).depths[v.idx(x, y)] == d1,
        d2 < d1 ==> set_pixel_s(set_pixel_s(v, x, y, c1, d1), x, y, c2, d2).depths[v.idx(x, y)]
            == d2,
        !(d2 < d1) ==> set_pixel_s(set_pixel_s(v, x, y, c1, d1), x, y, c2, d2) == set_pixel_s(
            v,
            x,
            y,
            c1,
            d1,
        ),
{
    lemma_pixel_idx(v.width as int, v.height as int, x, y);
}

/// The overlay write never mutates the depth buffer.
pub proof fn lemma_blend_keeps_depths(v: FbView, x: int, y: int, c: Color)
    ensures
        blend_pixel_s(v, x, y, c).depths == v.depths,
        blend_pixel_s(v, x, y, c).width == v.width,
        blend_pixel_s(v, x, y, c).height == v.height,
{
}

} // verus!
