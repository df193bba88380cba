//! The rasterizer core: owns the framebuffer and depth buffer, the
//! model/view/projection state and the uploaded vertex arrays, and scan
//! converts triangles with a per-pixel depth test.

use vstd::prelude::*;
use crate::color::Color;
use crate::fixed::{FX_ONE, fx_add, fx_add_s, fx_div, fx_div_s, fx_mul, fx_mul_s, sat64, tdiv};
use crate::geometry::{Mat4, Vec3, Vec4, mat_identity_s, mat_mul_s, mat_vec_mul_s};
use crate::triangle::Triangle;

verus! {

/// Largest framebuffer dimension, so that pixel coordinates stay well
/// inside the fixed-point coordinate range.
pub const MAX_DIM: u32 = 1048576;

/// Largest screen-space coordinate magnitude a triangle may have and
/// still be scan converted exactly; a triangle projected further out is
/// skipped (the pipeline does no clipping, and such geometry is outside
/// the supported range).
pub const COORD_LIMIT: i64 = 0x4000_0000;

/// The depth buffer's "maximum distance" sentinel: any real write is
/// nearer and wins the first depth test.
pub const DEPTH_FAR: i64 = 0x7fff_ffff_ffff_ffff;

/// Half the depth range `zFar - zNear` in fixed point (zNear = 0.1,
/// zFar = 50, matching the projection the callers build).
pub const DEPTH_F1: i64 = 25549;

/// Half the depth sum `zFar + zNear` in fixed point.
pub const DEPTH_F2: i64 = 25651;

/// Which buffers a `clear` call resets.
#[derive(Clone, Copy, PartialEq, Eq, Structural, Debug)]
pub struct Buffers {
    pub color: bool,
    pub depth: bool,
}

impl Buffers {
    /// Clear both the color and the depth buffer.
    pub fn all() -> (b: Buffers)
        ensures
            b == (Buffers { color: true, depth: true }),
    {
        Buffers { color: true, depth: true }
    }

    /// Clear only the color buffer.
    pub fn color_only() -> (b: Buffers)
        ensures
            b == (Buffers { color: true, depth: false }),
    {
        Buffers { color: true, depth: false }
    }

    /// Clear only the depth buffer.
    pub fn depth_only() -> (b: Buffers)
        ensures
            b == (Buffers { color: false, depth: true }),
    {
        Buffers { color: false, depth: true }
    }
}

/// The primitive kind a draw call rasterizes. Only `Triangle` is
/// implemented; a draw call with any other kind reports that and does
/// not draw.
#[derive(Clone, Copy, PartialEq, Eq, Structural, Debug)]
pub enum Primitive {
    Line,
    Triangle,
}

/// Handle to an uploaded position array.
#[derive(Clone, Copy, PartialEq, Eq, Structural, Default, Debug)]
pub struct PosBufId(pub u32);

/// Handle to an uploaded index array.
#[derive(Clone, Copy, PartialEq, Eq, Structural, Default, Debug)]
pub struct IndBufId(pub u32);

/// Handle to an uploaded per-vertex color array.
#[derive(Clone, Copy, PartialEq, Eq, Structural, Default, Debug)]
pub struct ColBufId(pub u32);

/// Why a draw call performed no drawing.
#[derive(Clone, Copy, PartialEq, Eq, Structural, Debug)]
pub enum RasterizerError {
    /// The position-buffer handle is not registered.
    UnknownPosBuffer,
    /// The index-buffer handle is not registered.
    UnknownIndBuffer,
    /// The color-buffer handle is not registered.
    UnknownColBuffer,
    /// An index triple points past the end of the referenced arrays.
    IndexOutOfBounds,
    /// The requested primitive kind is not implemented.
    NotImplemented,
}

/// The array stored under a given id, if any: the registry associates
/// each id with at most one array.
pub open spec fn lookup_s<T>(entries: Seq<(u32, T)>, id: u32) -> Option<T>
    decreases entries.len(),
{
    if entries.len() == 0 {
        None
    } else if entries[0].0 == id {
        Some(entries[0].1)
    } else {
        lookup_s(entries.drop_first(), id)
    }
}

/// All ids in a registry lie below the counter.
pub open spec fn ids_below_s<T>(entries: Seq<(u32, T)>, bound: u32) -> bool {
    forall|k: int| 0 <= k < entries.len() ==> (#[trigger] entries[k]).0 < bound
}

/// The row-major framebuffer index of pixel (x, y): row 0 is stored at
/// the bottom, so callers' top-down y is flipped.
pub open spec fn grid_idx_s(w: int, h: int, x: int, y: int) -> int {
    (h - 1 - y) * w + x
}

/// The x pixel coordinate stored at framebuffer index `i`.
pub open spec fn pix_x_s(w: int, i: int) -> int {
    i % w
}

/// The y pixel coordinate stored at framebuffer index `i`.
pub open spec fn pix_y_s(w: int, h: int, i: int) -> int {
    h - 1 - i / w
}

/// An in-bounds pixel has an in-bounds framebuffer index.
pub proof fn lemma_grid_idx_bounds(w: int, h: int, x: int, y: int)
    requires
        0 <= x < w,
        0 <= y < h,
    ensures
        0 <= grid_idx_s(w, h, x, y) < w * h,
        pix_x_s(w, grid_idx_s(w, h, x, y)) == x,
        pix_y_s(w, h, grid_idx_s(w, h, x, y)) == y,
{
    let q = h - 1 - y;
    assert(0 <= q * w && q * w + x < w * h) by (nonlinear_arith)
        requires
            0 <= x < w,
            0 <= q < h,
    ;
    vstd::arithmetic::div_mod::lemma_fundamental_div_mod_converse(q * w + x, w, q, x);
}

/// Distinct in-bounds pixels occupy distinct framebuffer indices.
pub proof fn lemma_grid_idx_distinct(w: int, h: int, x1: int, y1: int, x2: int, y2: int)
    requires
        0 <= x1 < w,
        0 <= y1 < h,
        0 <= x2 < w,
        0 <= y2 < h,
        x1 != x2 || y1 != y2,
    ensures
        grid_idx_s(w, h, x1, y1) != grid_idx_s(w, h, x2, y2),
{
    lemma_grid_idx_bounds(w, h, x1, y1);
    lemma_grid_idx_bounds(w, h, x2, y2);
}

/// Every in-bounds framebuffer index is the index of its own pixel.
pub proof fn lemma_pix_of_idx(w: int, h: int, i: int)
    requires
        0 < w,
        0 < h,
        0 <= i < w * h,
    ensures
        0 <= pix_x_s(w, i) < w,
        0 <= pix_y_s(w, h, i) < h,
        grid_idx_s(w, h, pix_x_s(w, i), pix_y_s(w, h, i)) == i,
{
    vstd::arithmetic::div_mod::lemma_fundamental_div_mod(i, w);
    vstd::arithmetic::div_mod::lemma_mod_bound(i, w);
    vstd::arithmetic::div_mod::lemma_div_pos_is_pos(i, w);
    assert(i / w < h) by {
        if i / w >= h {
            assert(w * (i / w) >= w * h) by (nonlinear_arith)
                requires
                    0 < w,
                    i / w >= h,
            ;
        }
    }
    assert(grid_idx_s(w, h, pix_x_s(w, i), pix_y_s(w, h, i)) == (i / w) * w + i % w);
    assert((i / w) * w == w * (i / w)) by (nonlinear_arith);
}

/// The framebuffer after one depth-tested write at index `i`.
pub open spec fn write_pixel_fb_s(fb: Seq<Color>, db: Seq<i64>, i: int, c: Color, z: int) -> Seq<
    Color,
> {
    if z < db[i] {
        fb.update(i, c)
    } else {
        fb
    }
}

/// The depth buffer after one depth-tested write at index `i`.
pub open spec fn write_pixel_db_s(db: Seq<i64>, i: int, z: int) -> Seq<i64> {
    if z < db[i] {
        db.update(i, z as i64)
    } else {
        db
    }
}

/// The rasterizer: framebuffer, depth buffer, transform state and the
/// registry of uploaded arrays.
pub struct Rasterizer {
    pub width: u32,
    pub height: u32,
    pub frame_buf: Vec<Color>,
    pub depth_buf: Vec<i64>,
    pub model: Mat4,
    pub view: Mat4,
    pub projection: Mat4,
    pub pos_buf: Vec<(u32, Vec<Vec3>)>,
    pub ind_buf: Vec<(u32, Vec<(usize, usize, usize)>)>,
    pub col_buf: Vec<(u32, Vec<Color>)>,
    pub next_id: u32,
    pub clear_color: Color,
}

impl Rasterizer {
    /// Structural soundness: the two buffers cover exactly width x height
    /// pixels, the dimensions are within the supported range, and every
    /// registered id lies below the id counter.
    pub open spec fn wf(self) -> bool {
        &&& self.width as int * self.height as int <= usize::MAX as int
        &&& self.width <= MAX_DIM
        &&& self.height <= MAX_DIM
        &&& self.frame_buf@.len() == self.width as int * self.height as int
        &&& self.depth_buf@.len() == self.width as int * self.height as int
        &&& ids_below_s(self.pos_buf@, self.next_id)
        &&& ids_below_s(self.ind_buf@, self.next_id)
        &&& ids_below_s(self.col_buf@, self.next_id)
    }

    /// Everything but the framebuffer and depth buffer is the same in
    /// the two states: dimensions, matrices, registry, clear color.
    pub open spec fn same_setup(a: Rasterizer, b: Rasterizer) -> bool {
        &&& a.width == b.width
        &&& a.height == b.height
        &&& a.model == b.model
        &&& a.view == b.view
        &&& a.projection == b.projection
        &&& a.pos_buf@ == b.pos_buf@
        &&& a.ind_buf@ == b.ind_buf@
        &&& a.col_buf@ == b.col_buf@
        &&& a.next_id == b.next_id
        &&& a.clear_color == b.clear_color
    }

    /// A rasterizer of the given size: framebuffer all black, depth
    /// buffer all "far", identity matrices, empty registry.
    pub fn new(width: u32, height: u32) -> (r: Rasterizer)
        requires
            width as int * height as int <= usize::MAX as int,
            width <= MAX_DIM,
            height <= MAX_DIM,
        ensures
            r.wf(),
            r.width == width,
            r.height == height,
            r.frame_buf@ =~= Seq::new(
                (width as int * height as int) as nat,
                |i: int| Color { r: 0u8, g: 0u8, b: 0u8, a: 255u8 },
            ),
            r.depth_buf@ =~= Seq::new(
                (width as int * height as int) as nat,
                |i: int| DEPTH_FAR as i64,
            ),
            r.model == mat_identity_s(),
            r.view == mat_identity_s(),
            r.projection == mat_identity_s(),
            r.pos_buf@.len() == 0,
            r.ind_buf@.len() == 0,
            r.col_buf@.len() == 0,
            r.next_id == 0u32,
            r.clear_color == (Color { r: 0u8, g: 0u8, b: 0u8, a: 255u8 }),
    {
        let n: usize = (width as usize) * (height as usize);
        let black = Color::new_rgb(0, 0, 0);
        let mut frame_buf: Vec<Color> = Vec::new();
        let mut i: usize = 0;
        while i < n
            invariant
                i <= n,
                frame_buf@.len() == i,
                forall|k: int| 0 <= k < i ==> frame_buf@[k] == black,
            decreases n - i,
        {
            frame_buf.push(black);
            i = i + 1;
        }
        let mut depth_buf: Vec<i64> = Vec::new();
        let mut j: usize = 0;
        while j < n
            invariant
                j <= n,
                depth_buf@.len() == j,
                forall|k: int| 0 <= k < j ==> depth_buf@[k] == DEPTH_FAR,
            decreases n - j,
        {
            depth_buf.push(DEPTH_FAR);
            j = j + 1;
        }
        Rasterizer {
            width,
            height,
            frame_buf,
            depth_buf,
            model: Mat4::identity(),
            view: Mat4::identity(),
            projection: Mat4::identity(),
            pos_buf: Vec::new(),
            ind_buf: Vec::new(),
            col_buf: Vec::new(),
            next_id: 0,
            clear_color: black,
        }
    }

    /// Set the model matrix; it takes effect on the next draw.
    pub fn set_model(&mut self, model: Mat4)
        ensures
            *final(self) == (Rasterizer { model, ..*old(self) }),
    {
        self.model = model;
    }

    /// Set the view matrix; it takes effect on the next draw.
    pub fn set_view(&mut self, view: Mat4)
        ensures
            *final(self) == (Rasterizer { view, ..*old(self) }),
    {
        self.view = view;
    }

    /// Set the projection matrix; it takes effect on the next draw.
    pub fn set_projection(&mut self, projection: Mat4)
        ensures
            *final(self) == (Rasterizer { projection, ..*old(self) }),
    {
        self.projection = projection;
    }

    /// Mint a fresh id: the returned id was never issued before, and the
    /// counter moves past it.
    fn get_next_id(&mut self) -> (id: u32)
        requires
            old(self).next_id < u32::MAX,
        ensures
            id == old(self).next_id,
            *final(self) == (Rasterizer { next_id: (old(self).next_id + 1) as u32, ..*old(self) }),
    {
        let id = self.next_id;
        self.next_id = self.next_id + 1;
        id
    }

    /// Store a copy of a position array under a fresh handle.
    pub fn load_positions(&mut self, positions: Vec<Vec3>) -> (id: PosBufId)
        requires
            old(self).wf(),
            old(self).next_id < u32::MAX,
        ensures
            final(self).wf(),
            id.0 == old(self).next_id,
            *final(self) == (Rasterizer {
                next_id: (old(self).next_id + 1) as u32,
                pos_buf: final(self).pos_buf,
                ..*old(self)
            }),
            final(self).pos_buf@ == old(self).pos_buf@.push((id.0, positions)),
            lookup_s(final(self).pos_buf@, id.0) == Some(positions),
            lookup_s(old(self).pos_buf@, id.0) is None,
            fresh_handle_s(*old(self), *final(self), id.0),
    {
        let id = self.get_next_id();
        proof {
            lemma_lookup_below(self.pos_buf@, id);
        }
        self.pos_buf.push((id, positions));
        proof {
            lemma_lookup_push(old(self).pos_buf@, id, positions);
        }
        PosBufId(id)
    }

    /// Store a copy of an index array under a fresh handle.
    pub fn load_indices(&mut self, indices: Vec<(usize, usize, usize)>) -> (id: IndBufId)
        requires
            old(self).wf(),
            old(self).next_id < u32::MAX,
        ensures
            final(self).wf(),
            id.0 == old(self).next_id,
            *final(self) == (Rasterizer {
                next_id: (old(self).next_id + 1) as u32,
                ind_buf: final(self).ind_buf,
                ..*old(self)
            }),
            final(self).ind_buf@ == old(self).ind_buf@.push((id.0, indices)),
            lookup_s(final(self).ind_buf@, id.0) == Some(indices),
            lookup_s(old(self).ind_buf@, id.0) is None,
            fresh_handle_s(*old(self), *final(self), id.0),
    {
        let id = self.get_next_id();
        proof {
            lemma_lookup_below(self.ind_buf@, id);
        }
        self.ind_buf.push((id, indices));
        proof {
            lemma_lookup_push(old(self).ind_buf@, id, indices);
        }
        IndBufId(id)
    }

    /// Store a copy of a per-vertex color array under a fresh handle.
    pub fn load_colors(&mut self, colors: Vec<Color>) -> (id: ColBufId)
        requires
            old(self).wf(),
            old(self).next_id < u32::MAX,
        ensures
            final(self).wf(),
            id.0 == old(self).next_id,
            *final(self) == (Rasterizer {
                next_id: (old(self).next_id + 1) as u32,
                col_buf: final(self).col_buf,
                ..*old(self)
            }),
            final(self).col_buf@ == old(self).col_buf@.push((id.0, colors)),
            lookup_s(final(self).col_buf@, id.0) == Some(colors),
            lookup_s(old(self).col_buf@, id.0) is None,
            fresh_handle_s(*old(self), *final(self), id.0),
    {
        let id = self.get_next_id();
        proof {
            lemma_lookup_below(self.col_buf@, id);
        }
        self.col_buf.push((id, colors));
        proof {
            lemma_lookup_push(old(self).col_buf@, id, colors);
        }
        ColBufId(id)
    }

    /// The framebuffer index of pixel (x, y).
    fn get_index(&self, x: u32, y: u32) -> (i: usize)
        requires
            self.wf(),
            x < self.width,
            y < self.height,
        ensures
            i as int == grid_idx_s(self.width as int, self.height as int, x as int, y as int),
            i < self.frame_buf@.len(),
    {
        proof {
            lemma_grid_idx_bounds(self.width as int, self.height as int, x as int, y as int);
        }
        ((self.height - 1 - y) as usize) * (self.width as usize) + (x as usize)
    }

    /// Depth-tested pixel write: out-of-range coordinates are silently
    /// ignored; an in-range write succeeds only if the new depth is
    /// strictly nearer than the stored one, and then updates the color
    /// and the depth together.
    pub fn set_pixel(&mut self, x: u32, y: u32, color: Color, depth: i64)
        requires
            old(self).wf(),
        ensures
            final(self).wf(),
            Self::same_setup(*final(self), *old(self)),
            x < old(self).width && y < old(self).height ==> {
                let i = grid_idx_s(
                    old(self).width as int,
                    old(self).height as int,
                    x as int,
                    y as int,
                );
                &&& final(self).frame_buf@ == write_pixel_fb_s(
                    old(self).frame_buf@,
                    old(self).depth_buf@,
                    i,
                    color,
                    depth as int,
                )
                &&& final(self).depth_buf@ == write_pixel_db_s(
                    old(self).depth_buf@,
                    i,
                    depth as int,
                )
            },
            !(x < old(self).width && y < old(self).height) ==> {
                &&& final(self).frame_buf@ == old(self).frame_buf@
                &&& final(self).depth_buf@ == old(self).depth_buf@
            },
    {
        if x < self.width && y < self.height {
            let index = self.get_index(x, y);
            if depth < self.depth_buf[index] {
                self.frame_buf[index] = color;
                self.depth_buf[index] = depth;
            }
        }
    }

    /// Reset the selected buffers: the color buffer to the configured
    /// clear color, the depth buffer to the "far" sentinel; an
    /// unselected buffer is untouched.
    pub fn clear(&mut self, buffers: Buffers)
        requires
            old(self).wf(),
        ensures
            final(self).wf(),
            Self::same_setup(*final(self), *old(self)),
            final(self).frame_buf@.len() == old(self).frame_buf@.len(),
            final(self).depth_buf@.len() == old(self).depth_buf@.len(),
            buffers.color ==> forall|k: int|
                0 <= k < final(self).frame_buf@.len() ==> final(self).frame_buf@[k] == old(
                    self,
                ).clear_color,
            !buffers.color ==> final(self).frame_buf@ == old(self).frame_buf@,
            buffers.depth ==> forall|k: int|
                0 <= k < final(self).depth_buf@.len() ==> final(self).depth_buf@[k]
                    == DEPTH_FAR as i64,
            !buffers.depth ==> final(self).depth_buf@ == old(self).depth_buf@,
    {
        if buffers.color {
            let cc = self.clear_color;
            let n = self.frame_buf.len();
            let mut i: usize = 0;
            while i < n
                invariant
                    i <= n,
                    n == self.frame_buf@.len(),
                    cc == old(self).clear_color,
                    *self == (Rasterizer { frame_buf: self.frame_buf, ..*old(self) }),
                    forall|k: int| 0 <= k < i ==> self.frame_buf@[k] == old(self).clear_color,
                    forall|k: int|
                        i <= k < n ==> self.frame_buf@[k] == old(self).frame_buf@[k],
                decreases n - i,
            {
                self.frame_buf[i] = cc;
                i = i + 1;
            }
        }
        if buffers.depth {
            let n = self.depth_buf.len();
            let mut i: usize = 0;
            while i < n
                invariant
                    i <= n,
                    n == self.depth_buf@.len(),
                    *self == (Rasterizer {
                        frame_buf: self.frame_buf,
                        depth_buf: self.depth_buf,
                        ..*old(self)
                    }),
                    buffers.color ==> (self.frame_buf@.len() == old(self).frame_buf@.len()
                        && forall|k: int|
                        0 <= k < self.frame_buf@.len() ==> self.frame_buf@[k] == old(
                            self,
                        ).clear_color),
                    !buffers.color ==> self.frame_buf@ == old(self).frame_buf@,
                    forall|k: int| 0 <= k < i ==> self.depth_buf@[k] == DEPTH_FAR,
                    forall|k: int|
                        i <= k < n ==> self.depth_buf@[k] == old(self).depth_buf@[k],
                decreases n - i,
            {
                self.depth_buf[i] = DEPTH_FAR;
                i = i + 1;
            }
        }
    }

    /// Read-only view of the framebuffer contents.
    pub fn framebuffer(&self) -> (fb: &Vec<Color>)
        ensures
            fb@ == self.frame_buf@,
    {
        &self.frame_buf
    }

    /// The framebuffer packed as 32-bit words in ARGB channel order,
    /// as a window blit expects it.
    pub fn framebuffer_u32(&self) -> (out: Vec<u32>)
        ensures
            out@.len() == self.frame_buf@.len(),
            forall|k: int|
                0 <= k < out@.len() ==> out@[k] as int == crate::color::argb_s(
                    #[trigger] self.frame_buf@[k],
                ),
    {
        let n = self.frame_buf.len();
        let mut out: Vec<u32> = Vec::new();
        let mut i: usize = 0;
        while i < n
            invariant
                i <= n,
                n == self.frame_buf@.len(),
                out@.len() == i,
                forall|k: int|
                    0 <= k < i ==> out@[k] as int == crate::color::argb_s(
                        #[trigger] self.frame_buf@[k],
                    ),
            decreases n - i,
        {
            let w = self.frame_buf[i].argb();
            out.push(w);
            i = i + 1;
        }
        out
    }

    /// The framebuffer as a contiguous byte array, 4 bytes per pixel in
    /// RGBA order, as a file encoder expects it.
    pub fn framebuffer_u8(&self) -> (out: Vec<u8>)
        ensures
            out@.len() == 4 * self.frame_buf@.len(),
            forall|k: int| 0 <= k < self.frame_buf@.len() ==> {
                &&& out@[4 * k] == (#[trigger] self.frame_buf@[k]).r
                &&& out@[4 * k + 1] == self.frame_buf@[k].g
                &&& out@[4 * k + 2] == self.frame_buf@[k].b
                &&& out@[4 * k + 3] == self.frame_buf@[k].a
            },
    {
        let n = self.frame_buf.len();
        let mut out: Vec<u8> = Vec::new();
        let mut i: usize = 0;
        while i < n
            invariant
                i <= n,
                n == self.frame_buf@.len(),
                out@.len() == 4 * i,
                forall|k: int| 0 <= k < i ==> {
                    &&& out@[4 * k] == (#[trigger] self.frame_buf@[k]).r
                    &&& out@[4 * k + 1] == self.frame_buf@[k].g
                    &&& out@[4 * k + 2] == self.frame_buf@[k].b
                    &&& out@[4 * k + 3] == self.frame_buf@[k].a
                },
            decreases n - i,
        {
            let c = self.frame_buf[i];
            out.push(c.r);
            out.push(c.g);
            out.push(c.b);
            out.push(c.a);
            i = i + 1;
        }
        out
    }
}

/// A screen-space vertex the scan converter can process exactly: every
/// coordinate within the fixed-point coordinate range.
pub open spec fn vert_in_range_s(v: Vec3) -> bool {
    &&& -(COORD_LIMIT as int) <= v.x <= COORD_LIMIT as int
    &&& -(COORD_LIMIT as int) <= v.y <= COORD_LIMIT as int
    &&& -(COORD_LIMIT as int) <= v.z <= COORD_LIMIT as int
}

/// All three vertices of a screen-space triangle are in range.
pub open spec fn tri_in_range_s(v0: Vec3, v1: Vec3, v2: Vec3) -> bool {
    vert_in_range_s(v0) && vert_in_range_s(v1) && vert_in_range_s(v2)
}

/// The shared denominator of the 2D barycentric coordinates:
/// `(y1-y2)(x0-x2) + (x2-x1)(y0-y2)`, twice the triangle's signed area.
pub open spec fn bary_d_s(v0: Vec3, v1: Vec3, v2: Vec3) -> int {
    (v1.y - v2.y) * (v0.x - v2.x) + (v2.x - v1.x) * (v0.y - v2.y)
}

/// The numerator of the first barycentric coordinate of point (px, py).
pub open spec fn bary_na_s(v0: Vec3, v1: Vec3, v2: Vec3, px: int, py: int) -> int {
    (v1.y - v2.y) * (px - v2.x) + (v2.x - v1.x) * (py - v2.y)
}

/// The numerator of the second barycentric coordinate of point (px, py).
pub open spec fn bary_nb_s(v0: Vec3, v1: Vec3, v2: Vec3, px: int, py: int) -> int {
    (v2.y - v0.y) * (px - v2.x) + (v0.x - v2.x) * (py - v2.y)
}

/// The numerator of the third barycentric coordinate: the weights sum
/// to one, so the numerators sum to the denominator.
pub open spec fn bary_ng_s(v0: Vec3, v1: Vec3, v2: Vec3, px: int, py: int) -> int {
    bary_d_s(v0, v1, v2) - bary_na_s(v0, v1, v2, px, py) - bary_nb_s(v0, v1, v2, px, py)
}

/// The rational `n / d` is nonnegative (for nonzero `d`).
pub open spec fn same_side_s(n: int, d: int) -> bool {
    if d >= 0 {
        n >= 0
    } else {
        n <= 0
    }
}

/// Point (px, py) lies inside the triangle (edges included): all three
/// barycentric coordinates are at least zero. A degenerate triangle
/// (zero denominator) contains no point.
pub open spec fn inside_s(v0: Vec3, v1: Vec3, v2: Vec3, px: int, py: int) -> bool {
    let d = bary_d_s(v0, v1, v2);
    &&& d != 0
    &&& same_side_s(bary_na_s(v0, v1, v2, px, py), d)
    &&& same_side_s(bary_nb_s(v0, v1, v2, px, py), d)
    &&& same_side_s(bary_ng_s(v0, v1, v2, px, py), d)
}

/// The depth interpolated at (px, py) with barycentric weights: the
/// exact rational `(na*z0 + nb*z1 + ng*z2) / d`, truncated toward zero
/// and saturated (vertices carry w = 1 in screen space, so the
/// perspective-correct formula reduces to this affine one).
pub open spec fn depth_s(v0: Vec3, v1: Vec3, v2: Vec3, px: int, py: int) -> int {
    let na = bary_na_s(v0, v1, v2, px, py);
    let nb = bary_nb_s(v0, v1, v2, px, py);
    let ng = bary_ng_s(v0, v1, v2, px, py);
    sat64(tdiv(na * v0.z + nb * v1.z + ng * v2.z, bary_d_s(v0, v1, v2)))
}

/// Pixel (x, y) is colored by the triangle: its center lies inside and
/// its interpolated depth beats the stored depth.
pub open spec fn covered_s(
    v0: Vec3,
    v1: Vec3,
    v2: Vec3,
    db: Seq<i64>,
    w: int,
    h: int,
    x: int,
    y: int,
) -> bool {
    &&& inside_s(v0, v1, v2, x * (FX_ONE as int), y * (FX_ONE as int))
    &&& depth_s(v0, v1, v2, x * (FX_ONE as int), y * (FX_ONE as int)) < db[grid_idx_s(w, h, x, y)]
}

/// The framebuffer after scan converting one triangle with flat color
/// `c`: exactly the covered pixels change, to `c`.
pub open spec fn raster_fb_s(
    fb: Seq<Color>,
    db: Seq<i64>,
    c: Color,
    v0: Vec3,
    v1: Vec3,
    v2: Vec3,
    w: int,
    h: int,
) -> Seq<Color> {
    Seq::new(
        fb.len(),
        |i: int|
            if covered_s(v0, v1, v2, db, w, h, pix_x_s(w, i), pix_y_s(w, h, i)) {
                c
            } else {
                fb[i]
            },
    )
}

/// The depth buffer after scan converting one triangle: exactly the
/// covered pixels change, to their interpolated depth.
pub open spec fn raster_db_s(db: Seq<i64>, v0: Vec3, v1: Vec3, v2: Vec3, w: int, h: int) -> Seq<
    i64,
> {
    Seq::new(
        db.len(),
        |i: int|
            if covered_s(v0, v1, v2, db, w, h, pix_x_s(w, i), pix_y_s(w, h, i)) {
                depth_s(
                    v0,
                    v1,
                    v2,
                    pix_x_s(w, i) * (FX_ONE as int),
                    pix_y_s(w, h, i) * (FX_ONE as int),
                ) as i64
            } else {
                db[i]
            },
    )
}

/// The cell of pixel (x, y) holds what one scan-converted triangle
/// leaves there: the flat color and interpolated depth if the pixel is
/// covered, its previous contents otherwise.
pub open spec fn cell_done_s(
    fb0: Seq<Color>,
    db0: Seq<i64>,
    fb1: Seq<Color>,
    db1: Seq<i64>,
    c: Color,
    v0: Vec3,
    v1: Vec3,
    v2: Vec3,
    w: int,
    h: int,
    x: int,
    y: int,
) -> bool {
    let i = grid_idx_s(w, h, x, y);
    if covered_s(v0, v1, v2, db0, w, h, x, y) {
        fb1[i] == c && db1[i] == depth_s(
            v0,
            v1,
            v2,
            x * (FX_ONE as int),
            y * (FX_ONE as int),
        ) as i64
    } else {
        fb1[i] == fb0[i] && db1[i] == db0[i]
    }
}

/// The cell of pixel (x, y) is untouched.
pub open spec fn cell_same_s(
    fb0: Seq<Color>,
    db0: Seq<i64>,
    fb1: Seq<Color>,
    db1: Seq<i64>,
    w: int,
    h: int,
    x: int,
    y: int,
) -> bool {
    let i = grid_idx_s(w, h, x, y);
    fb1[i] == fb0[i] && db1[i] == db0[i]
}

/// Inside test and depth interpolation for one pixel center, in exact
/// integer arithmetic on the shared barycentric numerators.
/// The 2D barycentric coordinates of point (px, py) against a
/// triangle's x, y coordinates, as exact integers: the three numerators
/// and their shared denominator (each coordinate is its numerator over
/// the denominator).
pub fn compute_barycentric2d(v0: Vec3, v1: Vec3, v2: Vec3, px: i64, py: i64) -> (r: (
    i128,
    i128,
    i128,
    i128,
))
    requires
        tri_in_range_s(v0, v1, v2),
        -COORD_LIMIT <= px <= COORD_LIMIT,
        -COORD_LIMIT <= py <= COORD_LIMIT,
    ensures
        r.0 as int == bary_na_s(v0, v1, v2, px as int, py as int),
        r.1 as int == bary_nb_s(v0, v1, v2, px as int, py as int),
        r.2 as int == bary_ng_s(v0, v1, v2, px as int, py as int),
        r.3 as int == bary_d_s(v0, v1, v2),
{
    let y12: i64 = v1.y - v2.y;
    let x02: i64 = v0.x - v2.x;
    let x21: i64 = v2.x - v1.x;
    let y02: i64 = v0.y - v2.y;
    let y20: i64 = v2.y - v0.y;
    let pxc: i64 = px - v2.x;
    let pyc: i64 = py - v2.y;
    proof {
        crate::fixed::lemma_small_mul_fits_i128(y12 as int, x02 as int, 0x1_0000_0000, 0x1_0000_0000);
        crate::fixed::lemma_small_mul_fits_i128(x21 as int, y02 as int, 0x1_0000_0000, 0x1_0000_0000);
        crate::fixed::lemma_small_mul_fits_i128(y12 as int, pxc as int, 0x1_0000_0000, 0x1_0000_0000);
        crate::fixed::lemma_small_mul_fits_i128(x21 as int, pyc as int, 0x1_0000_0000, 0x1_0000_0000);
        crate::fixed::lemma_small_mul_fits_i128(y20 as int, pxc as int, 0x1_0000_0000, 0x1_0000_0000);
        crate::fixed::lemma_small_mul_fits_i128(x02 as int, pyc as int, 0x1_0000_0000, 0x1_0000_0000);
    }
    let d: i128 = (y12 as i128) * (x02 as i128) + (x21 as i128) * (y02 as i128);
    let na: i128 = (y12 as i128) * (pxc as i128) + (x21 as i128) * (pyc as i128);
    let nb: i128 = (y20 as i128) * (pxc as i128) + (x02 as i128) * (pyc as i128);
    (na, nb, d - na - nb, d)
}

/// Whether the point (px, py) lies inside the triangle, edges
/// included: all three barycentric coordinates at least zero.
pub fn inside_triangle(v0: Vec3, v1: Vec3, v2: Vec3, px: i64, py: i64) -> (r: bool)
    requires
        tri_in_range_s(v0, v1, v2),
        -COORD_LIMIT <= px <= COORD_LIMIT,
        -COORD_LIMIT <= py <= COORD_LIMIT,
    ensures
        r == inside_s(v0, v1, v2, px as int, py as int),
{
    let b = compute_barycentric2d(v0, v1, v2, px, py);
    let (na, nb, ng, d) = b;
    d != 0 && (if d >= 0 {
        na >= 0 && nb >= 0 && ng >= 0
    } else {
        na <= 0 && nb <= 0 && ng <= 0
    })
}

fn coverage(v0: Vec3, v1: Vec3, v2: Vec3, px: i64, py: i64) -> (r: (bool, i64))
    requires
        tri_in_range_s(v0, v1, v2),
        -COORD_LIMIT <= px <= COORD_LIMIT,
        -COORD_LIMIT <= py <= COORD_LIMIT,
    ensures
        r.0 == inside_s(v0, v1, v2, px as int, py as int),
        r.1 as int == depth_s(v0, v1, v2, px as int, py as int),
{
    let y12: i64 = v1.y - v2.y;
    let x02: i64 = v0.x - v2.x;
    let x21: i64 = v2.x - v1.x;
    let y02: i64 = v0.y - v2.y;
    let y20: i64 = v2.y - v0.y;
    let pxc: i64 = px - v2.x;
    let pyc: i64 = py - v2.y;
    proof {
        crate::fixed::lemma_small_mul_fits_i128(y12 as int, x02 as int, 0x1_0000_0000, 0x1_0000_0000);
        crate::fixed::lemma_small_mul_fits_i128(x21 as int, y02 as int, 0x1_0000_0000, 0x1_0000_0000);
        crate::fixed::lemma_small_mul_fits_i128(y12 as int, pxc as int, 0x1_0000_0000, 0x1_0000_0000);
        crate::fixed::lemma_small_mul_fits_i128(x21 as int, pyc as int, 0x1_0000_0000, 0x1_0000_0000);
        crate::fixed::lemma_small_mul_fits_i128(y20 as int, pxc as int, 0x1_0000_0000, 0x1_0000_0000);
        crate::fixed::lemma_small_mul_fits_i128(x02 as int, pyc as int, 0x1_0000_0000, 0x1_0000_0000);
    }
    let d: i128 = (y12 as i128) * (x02 as i128) + (x21 as i128) * (y02 as i128);
    let na: i128 = (y12 as i128) * (pxc as i128) + (x21 as i128) * (pyc as i128);
    let nb: i128 = (y20 as i128) * (pxc as i128) + (x02 as i128) * (pyc as i128);
    let ng: i128 = d - na - nb;
    let ins: bool = d != 0 && (if d >= 0 {
        na >= 0 && nb >= 0 && ng >= 0
    } else {
        na <= 0 && nb <= 0 && ng <= 0
    });
    proof {
        crate::fixed::lemma_small_mul_fits_i128(na as int, v0.z as int, 0x2_0000_0000_0000_0000, 0x4000_0000);
        crate::fixed::lemma_small_mul_fits_i128(nb as int, v1.z as int, 0x2_0000_0000_0000_0000, 0x4000_0000);
        crate::fixed::lemma_small_mul_fits_i128(ng as int, v2.z as int, 0x8_0000_0000_0000_0000, 0x4000_0000);
    }
    let znum: i128 = na * (v0.z as i128) + nb * (v1.z as i128) + ng * (v2.z as i128);
    let z: i64 = crate::fixed::div_sat64(znum, d);
    (ins, z)
}

impl Rasterizer {
    /// Scan convert one triangle with its flat (first-vertex) color:
    /// exactly the pixels whose centers have all three barycentric
    /// coordinates at least zero, and whose interpolated depth beats the
    /// stored depth, are written; every other cell is untouched.
    ///
    /// The scan walks every pixel of the target and lets the coverage
    /// test decide: the bounds check that a bounding-box walk would
    /// clamp against is subsumed by the per-pixel test, and the written
    /// set is identical.
    pub fn rasterize_triangle(&mut self, t: &Triangle)
        requires
            old(self).wf(),
            tri_in_range_s(t.v[0], t.v[1], t.v[2]),
        ensures
            final(self).wf(),
            Self::same_setup(*final(self), *old(self)),
            final(self).frame_buf@ == raster_fb_s(
                old(self).frame_buf@,
                old(self).depth_buf@,
                t.color[0],
                t.v[0],
                t.v[1],
                t.v[2],
                old(self).width as int,
                old(self).height as int,
            ),
            final(self).depth_buf@ == raster_db_s(
                old(self).depth_buf@,
                t.v[0],
                t.v[1],
                t.v[2],
                old(self).width as int,
                old(self).height as int,
            ),
    {
        let w = self.width;
        let h = self.height;
        let v0 = t.v[0];
        let v1 = t.v[1];
        let v2 = t.v[2];
        let c = t.color[0];
        let ghost fb0 = self.frame_buf@;
        let ghost db0 = self.depth_buf@;
        let mut x: u32 = 0;
        while x < w
            invariant
                x <= w,
                w == self.width,
                h == self.height,
                self.wf(),
                tri_in_range_s(v0, v1, v2),
                w <= MAX_DIM,
                Self::same_setup(*self, *old(self)),
                fb0 == old(self).frame_buf@,
                db0 == old(self).depth_buf@,
                self.frame_buf@.len() == fb0.len(),
                self.depth_buf@.len() == db0.len(),
                forall|xx: int, yy: int|
                    0 <= xx < x && 0 <= yy < h as int ==> #[trigger] cell_done_s(
                        fb0,
                        db0,
                        self.frame_buf@,
                        self.depth_buf@,
                        c,
                        v0,
                        v1,
                        v2,
                        w as int,
                        h as int,
                        xx,
                        yy,
                    ),
                forall|xx: int, yy: int|
                    x <= xx < w as int && 0 <= yy < h as int ==> #[trigger] cell_same_s(
                        fb0,
                        db0,
                        self.frame_buf@,
                        self.depth_buf@,
                        w as int,
                        h as int,
                        xx,
                        yy,
                    ),
            decreases w - x,
        {
            let mut y: u32 = 0;
            while y < h
                invariant
                    x < w,
                    y <= h,
                    w == self.width,
                    h == self.height,
                    self.wf(),
                    tri_in_range_s(v0, v1, v2),
                    w <= MAX_DIM,
                    h <= MAX_DIM,
                    Self::same_setup(*self, *old(self)),
                    fb0 == old(self).frame_buf@,
                    db0 == old(self).depth_buf@,
                    self.frame_buf@.len() == fb0.len(),
                    self.depth_buf@.len() == db0.len(),
                    forall|xx: int, yy: int|
                        0 <= xx < x && 0 <= yy < h as int ==> #[trigger] cell_done_s(
                            fb0,
                            db0,
                            self.frame_buf@,
                            self.depth_buf@,
                            c,
                            v0,
                            v1,
                            v2,
                            w as int,
                            h as int,
                            xx,
                            yy,
                        ),
                    forall|yy: int|
                        0 <= yy < y ==> #[trigger] cell_done_s(
                            fb0,
                            db0,
                            self.frame_buf@,
                            self.depth_buf@,
                            c,
                            v0,
                            v1,
                            v2,
                            w as int,
                            h as int,
                            x as int,
                            yy,
                        ),
                    forall|xx: int, yy: int|
                        x < xx < w as int && 0 <= yy < h as int ==> #[trigger] cell_same_s(
                            fb0,
                            db0,
                            self.frame_buf@,
                            self.depth_buf@,
                            w as int,
                            h as int,
                            xx,
                            yy,
                        ),
                    forall|yy: int|
                        y <= yy < h as int ==> #[trigger] cell_same_s(
                            fb0,
                            db0,
                            self.frame_buf@,
                            self.depth_buf@,
                            w as int,
                            h as int,
                            x as int,
                            yy,
                        ),
                decreases h - y,
            {
                let px: i64 = (x as i64) * FX_ONE;
                let py: i64 = (y as i64) * FX_ONE;
                let r = coverage(v0, v1, v2, px, py);
                let ghost pre_fb = self.frame_buf@;
                let ghost pre_db = self.depth_buf@;
                if r.0 {
                    self.set_pixel(x, y, c, r.1);
                }
                proof {
                    let wi = w as int;
                    let hi = h as int;
                    let xi = x as int;
                    let yi = y as int;
                    let i = grid_idx_s(wi, hi, xi, yi);
                    lemma_grid_idx_bounds(wi, hi, xi, yi);
                    assert(pre_fb.len() == wi * hi);
                    assert(pre_db.len() == wi * hi);
                    assert(cell_same_s(fb0, db0, pre_fb, pre_db, wi, hi, xi, yi));
                    assert(cell_done_s(
                        fb0,
                        db0,
                        self.frame_buf@,
                        self.depth_buf@,
                        c,
                        v0,
                        v1,
                        v2,
                        wi,
                        hi,
                        xi,
                        yi,
                    ));
                    assert forall|yy: int| 0 <= yy < yi + 1 implies #[trigger] cell_done_s(
                        fb0,
                        db0,
                        self.frame_buf@,
                        self.depth_buf@,
                        c,
                        v0,
                        v1,
                        v2,
                        wi,
                        hi,
                        xi,
                        yy,
                    ) by {
                        if yy != yi {
                            lemma_grid_idx_bounds(wi, hi, xi, yy);
                            lemma_grid_idx_distinct(wi, hi, xi, yy, xi, yi);
                            assert(cell_done_s(fb0, db0, pre_fb, pre_db, c, v0, v1, v2, wi, hi, xi, yy));
                            let j = grid_idx_s(wi, hi, xi, yy);
                            assert(self.frame_buf@[j] == pre_fb[j]);
                            assert(self.depth_buf@[j] == pre_db[j]);
                        }
                    }
                    assert forall|xx: int, yy: int|
                        0 <= xx < xi && 0 <= yy < hi implies #[trigger] cell_done_s(
                        fb0,
                        db0,
                        self.frame_buf@,
                        self.depth_buf@,
                        c,
                        v0,
                        v1,
                        v2,
                        wi,
                        hi,
                        xx,
                        yy,
                    ) by {
                        lemma_grid_idx_bounds(wi, hi, xx, yy);
                        lemma_grid_idx_distinct(wi, hi, xx, yy, xi, yi);
                        assert(cell_done_s(fb0, db0, pre_fb, pre_db, c, v0, v1, v2, wi, hi, xx, yy));
                        let j = grid_idx_s(wi, hi, xx, yy);
                        assert(self.frame_buf@[j] == pre_fb[j]);
                        assert(self.depth_buf@[j] == pre_db[j]);
                    }
                    assert forall|xx: int, yy: int|
                        xi < xx < wi && 0 <= yy < hi implies #[trigger] cell_same_s(
                        fb0,
                        db0,
                        self.frame_buf@,
                        self.depth_buf@,
                        wi,
                        hi,
                        xx,
                        yy,
                    ) by {
                        lemma_grid_idx_bounds(wi, hi, xx, yy);
                        lemma_grid_idx_distinct(wi, hi, xx, yy, xi, yi);
                        assert(cell_same_s(fb0, db0, pre_fb, pre_db, wi, hi, xx, yy));
                        let j = grid_idx_s(wi, hi, xx, yy);
                        assert(self.frame_buf@[j] == pre_fb[j]);
                        assert(self.depth_buf@[j] == pre_db[j]);
                    }
                    assert forall|yy: int| yi + 1 <= yy < hi implies #[trigger] cell_same_s(
                        fb0,
                        db0,
                        self.frame_buf@,
                        self.depth_buf@,
                        wi,
                        hi,
                        xi,
                        yy,
                    ) by {
                        lemma_grid_idx_bounds(wi, hi, xi, yy);
                        lemma_grid_idx_distinct(wi, hi, xi, yy, xi, yi);
                        assert(cell_same_s(fb0, db0, pre_fb, pre_db, wi, hi, xi, yy));
                        let j = grid_idx_s(wi, hi, xi, yy);
                        assert(self.frame_buf@[j] == pre_fb[j]);
                        assert(self.depth_buf@[j] == pre_db[j]);
                    }
                }
                y = y + 1;
            }
            x = x + 1;
        }
        proof {
            let wi = w as int;
            let hi = h as int;
            let target_fb = raster_fb_s(fb0, db0, c, v0, v1, v2, wi, hi);
            let target_db = raster_db_s(db0, v0, v1, v2, wi, hi);
            assert forall|i: int| 0 <= i < fb0.len() implies self.frame_buf@[i] == target_fb[i]
                && self.depth_buf@[i] == target_db[i] by {
                lemma_pix_of_idx(wi, hi, i);
                assert(cell_done_s(
                    fb0,
                    db0,
                    self.frame_buf@,
                    self.depth_buf@,
                    c,
                    v0,
                    v1,
                    v2,
                    wi,
                    hi,
                    pix_x_s(wi, i),
                    pix_y_s(wi, hi, i),
                ));
            }
            assert(self.frame_buf@ =~= target_fb);
            assert(self.depth_buf@ =~= target_db);
        }
    }
}

/// A triangle already mapped to screen space, with its flat color:
/// what one index triple contributes to a draw call.
#[derive(Clone, Copy, PartialEq, Eq, Structural, Debug)]
pub struct ScreenTri {
    pub v0: Vec3,
    pub v1: Vec3,
    pub v2: Vec3,
    pub c: Color,
}

/// The viewport map for one axis: `(c + 1) * 0.5 * dim` in fixed point,
/// taking normalized device coordinates [-1, 1] to pixel space [0, dim].
pub open spec fn viewport_s(c: int, dim: int) -> int {
    sat64(tdiv((c + FX_ONE as int) * dim, 2))
}

/// The combined transform at draw time: `projection * view * model`.
pub open spec fn mvp_s(r: Rasterizer) -> Mat4 {
    mat_mul_s(mat_mul_s(r.projection, r.view), r.model)
}

/// One object-space position taken to screen space: homogenize with
/// w = 1, transform, perspective-divide x, y, z by w, then viewport-map
/// x and y and remap z by `z * f1 + f2`.
pub open spec fn screen_vertex_s(m: Mat4, p: Vec3, w: int, h: int) -> Vec3 {
    let clip = mat_vec_mul_s(m, Vec4 { x: p.x, y: p.y, z: p.z, w: FX_ONE as i64 });
    let xd = fx_div_s(clip.x as int, clip.w as int);
    let yd = fx_div_s(clip.y as int, clip.w as int);
    let zd = fx_div_s(clip.z as int, clip.w as int);
    Vec3 {
        x: viewport_s(xd, w) as i64,
        y: viewport_s(yd, h) as i64,
        z: fx_add_s(fx_mul_s(zd, DEPTH_F1 as int), DEPTH_F2 as int) as i64,
    }
}

/// The screen triangle of one index triple: the three referenced
/// positions taken to screen space, and the flat color (the first
/// vertex's uploaded color, or the fixed red corner color when no color
/// array is used).
pub open spec fn screen_tri_of_s(
    m: Mat4,
    pos: Seq<Vec3>,
    ind: (usize, usize, usize),
    cols: Option<Seq<Color>>,
    w: int,
    h: int,
) -> ScreenTri {
    ScreenTri {
        v0: screen_vertex_s(m, pos[ind.0 as int], w, h),
        v1: screen_vertex_s(m, pos[ind.1 as int], w, h),
        v2: screen_vertex_s(m, pos[ind.2 as int], w, h),
        c: match cols {
            Some(cs) => cs[ind.0 as int],
            None => Color { r: 255u8, g: 0u8, b: 0u8, a: 255u8 },
        },
    }
}

/// The screen triangles of a whole draw call, one per index triple.
pub open spec fn screen_tris_s(
    m: Mat4,
    pos: Seq<Vec3>,
    inds: Seq<(usize, usize, usize)>,
    cols: Option<Seq<Color>>,
    w: int,
    h: int,
) -> Seq<ScreenTri> {
    Seq::new(inds.len(), |k: int| screen_tri_of_s(m, pos, inds[k], cols, w, h))
}

/// A screen triangle the scan converter accepts: all coordinates in
/// the exactly-representable range.
pub open spec fn tri_ok_s(t: ScreenTri) -> bool {
    tri_in_range_s(t.v0, t.v1, t.v2)
}

/// The buffers after one triangle of a draw call: scan converted if its
/// screen coordinates are in range, skipped otherwise (the pipeline does
/// no clipping; geometry projected out of range is not drawn).
pub open spec fn raster_step_s(fb: Seq<Color>, db: Seq<i64>, t: ScreenTri, w: int, h: int) -> (
    Seq<Color>,
    Seq<i64>,
) {
    if tri_ok_s(t) {
        (raster_fb_s(fb, db, t.c, t.v0, t.v1, t.v2, w, h), raster_db_s(db, t.v0, t.v1, t.v2, w, h))
    } else {
        (fb, db)
    }
}

/// The buffers after a whole draw call: each triangle applied in order.
pub open spec fn raster_all_s(
    fb: Seq<Color>,
    db: Seq<i64>,
    tris: Seq<ScreenTri>,
    w: int,
    h: int,
) -> (Seq<Color>, Seq<i64>)
    decreases tris.len(),
{
    if tris.len() == 0 {
        (fb, db)
    } else {
        let s = raster_step_s(fb, db, tris[0], w, h);
        raster_all_s(s.0, s.1, tris.drop_first(), w, h)
    }
}

/// Every index triple points inside the position array (and inside the
/// color array, when one is used).
pub open spec fn inds_ok_s(
    inds: Seq<(usize, usize, usize)>,
    plen: int,
    cols: Option<Seq<Color>>,
) -> bool {
    forall|k: int| 0 <= k < inds.len() ==> {
        let t = #[trigger] inds[k];
        &&& t.0 < plen
        &&& t.1 < plen
        &&& t.2 < plen
        &&& match cols {
            Some(cs) => t.0 < cs.len() && t.1 < cs.len() && t.2 < cs.len(),
            None => true,
        }
    }
}

/// What a draw call returns and leaves in the two buffers, all cases:
/// unknown handles, unsupported primitive and out-of-range indices are
/// reported (in that order) and draw nothing; otherwise every index
/// triple's triangle is transformed and scan converted in order.
pub open spec fn draw_s(
    r: Rasterizer,
    pos_buffer: PosBufId,
    ind_buffer: IndBufId,
    col_buffer: Option<ColBufId>,
    primitive: Primitive,
) -> (Result<(), RasterizerError>, Seq<Color>, Seq<i64>) {
    match lookup_s(r.pos_buf@, pos_buffer.0) {
        None => (Err(RasterizerError::UnknownPosBuffer), r.frame_buf@, r.depth_buf@),
        Some(pos) => match lookup_s(r.ind_buf@, ind_buffer.0) {
            None => (Err(RasterizerError::UnknownIndBuffer), r.frame_buf@, r.depth_buf@),
            Some(inds) => match col_buffer {
                Some(cb) => match lookup_s(r.col_buf@, cb.0) {
                    None => (Err(RasterizerError::UnknownColBuffer), r.frame_buf@, r.depth_buf@),
                    Some(cs) => draw_core_s(r, pos@, inds@, Some(cs@), primitive),
                },
                None => draw_core_s(r, pos@, inds@, None, primitive),
            },
        },
    }
}

/// The draw call once its handles have resolved.
pub open spec fn draw_core_s(
    r: Rasterizer,
    pos: Seq<Vec3>,
    inds: Seq<(usize, usize, usize)>,
    cols: Option<Seq<Color>>,
    primitive: Primitive,
) -> (Result<(), RasterizerError>, Seq<Color>, Seq<i64>) {
    if !(primitive is Triangle) {
        (Err(RasterizerError::NotImplemented), r.frame_buf@, r.depth_buf@)
    } else if !inds_ok_s(inds, pos.len() as int, cols) {
        (Err(RasterizerError::IndexOutOfBounds), r.frame_buf@, r.depth_buf@)
    } else {
        let out = raster_all_s(
            r.frame_buf@,
            r.depth_buf@,
            screen_tris_s(mvp_s(r), pos, inds, cols, r.width as int, r.height as int),
            r.width as int,
            r.height as int,
        );
        (Ok(()), out.0, out.1)
    }
}

/// Whether a screen-space vertex is in the exactly-representable range.
fn vert_in_range(v: Vec3) -> (r: bool)
    ensures
        r == vert_in_range_s(v),
{
    -COORD_LIMIT <= v.x && v.x <= COORD_LIMIT && -COORD_LIMIT <= v.y && v.y <= COORD_LIMIT
        && -COORD_LIMIT <= v.z && v.z <= COORD_LIMIT
}

/// The viewport map for one axis.
fn viewport(c: i64, dim: u32) -> (r: i64)
    requires
        dim <= MAX_DIM,
    ensures
        r as int == viewport_s(c as int, dim as int),
{
    proof {
        crate::fixed::lemma_small_mul_fits_i128(
            c as int + FX_ONE as int,
            dim as int,
            0x2_0000_0000_0000_0000,
            0x10_0000,
        );
    }
    let s: i128 = (c as i128 + FX_ONE as i128) * (dim as i128);
    crate::fixed::div_sat64(s, 2)
}

/// One position taken through the whole vertex transform.
fn screen_vertex(m: &Mat4, p: Vec3, width: u32, height: u32) -> (r: Vec3)
    requires
        width <= MAX_DIM,
        height <= MAX_DIM,
    ensures
        r == screen_vertex_s(*m, p, width as int, height as int),
{
    let clip = m.mul_vec(&Vec4::new(p.x, p.y, p.z, FX_ONE));
    let xd = fx_div(clip.x, clip.w);
    let yd = fx_div(clip.y, clip.w);
    let zd = fx_div(clip.z, clip.w);
    Vec3 {
        x: viewport(xd, width),
        y: viewport(yd, height),
        z: fx_add(fx_mul(zd, DEPTH_F1), DEPTH_F2),
    }
}

/// The position of the entry holding `id`, if one does.
fn find_entry<T>(entries: &Vec<(u32, T)>, id: u32) -> (r: Option<usize>)
    ensures
        match r {
            Some(j) => j < entries@.len() && entries@[j as int].0 == id && lookup_s(entries@, id)
                == Some(entries@[j as int].1),
            None => lookup_s(entries@, id) is None,
        },
{
    let n = entries.len();
    let mut i: usize = 0;
    while i < n
        invariant
            i <= n,
            n == entries@.len(),
            forall|k: int| 0 <= k < i ==> (#[trigger] entries@[k]).0 != id,
        decreases n - i,
    {
        if entries[i].0 == id {
            proof {
                lemma_lookup_at(entries@, id, i as int);
            }
            return Some(i);
        }
        i = i + 1;
    }
    proof {
        lemma_lookup_absent(entries@, id);
    }
    None
}

impl Rasterizer {
    /// Draw the triangles named by an index-buffer handle over the
    /// positions of a position-buffer handle, with per-vertex colors
    /// from a color-buffer handle if one is given (fixed corner colors
    /// otherwise). Unknown handles, a primitive other than `Triangle`
    /// and out-of-range indices are reported, in that order, and draw
    /// nothing. Otherwise each triangle runs through the transform
    /// pipeline and is scan converted with the depth test.
    #[verifier::rlimit(100)]
    pub fn draw(
        &mut self,
        pos_buffer: PosBufId,
        ind_buffer: IndBufId,
        col_buffer: Option<ColBufId>,
        primitive: Primitive,
    ) -> (res: Result<(), RasterizerError>)
        requires
            old(self).wf(),
        ensures
            final(self).wf(),
            Self::same_setup(*final(self), *old(self)),
            ({
                let out = draw_s(*old(self), pos_buffer, ind_buffer, col_buffer, primitive);
                &&& res == out.0
                &&& final(self).frame_buf@ == out.1
                &&& final(self).depth_buf@ == out.2
            }),
    {
        let pos_j: usize = match find_entry(&self.pos_buf, pos_buffer.0) {
            Some(j) => j,
            None => {
                return Err(RasterizerError::UnknownPosBuffer);
            },
        };
        let ind_j: usize = match find_entry(&self.ind_buf, ind_buffer.0) {
            Some(j) => j,
            None => {
                return Err(RasterizerError::UnknownIndBuffer);
            },
        };
        let col_j: Option<usize> = match col_buffer {
            Some(cb) => match find_entry(&self.col_buf, cb.0) {
                Some(j) => Some(j),
                None => {
                    return Err(RasterizerError::UnknownColBuffer);
                },
            },
            None => None,
        };
        match primitive {
            Primitive::Triangle => {},
            _ => {
                return Err(RasterizerError::NotImplemented);
            },
        }
        let ghost pos_sq = self.pos_buf@[pos_j as int].1@;
        let ghost inds_sq = self.ind_buf@[ind_j as int].1@;
        let ghost colsq: Option<Seq<Color>> = match col_j {
            Some(j) => Some(self.col_buf@[j as int].1@),
            None => None,
        };
        let w = self.width;
        let h = self.height;
        let plen: usize = self.pos_buf[pos_j].1.len();
        let clen: usize = match col_j {
            Some(j) => self.col_buf[j].1.len(),
            None => 0,
        };
        let n: usize = self.ind_buf[ind_j].1.len();

        // validate every index triple before touching the buffers
        let mut k: usize = 0;
        while k < n
            invariant
                k <= n,
                n == inds_sq.len(),
                *self == *old(self),
                self.wf(),
                primitive is Triangle,
                lookup_s(self.pos_buf@, pos_buffer.0) == Some(self.pos_buf@[pos_j as int].1),
                lookup_s(self.ind_buf@, ind_buffer.0) == Some(self.ind_buf@[ind_j as int].1),
                col_buffer matches Some(cb) ==> col_j matches Some(j) && lookup_s(
                    self.col_buf@,
                    cb.0,
                ) == Some(self.col_buf@[j as int].1),
                col_buffer is None ==> col_j is None,
                pos_j < self.pos_buf@.len(),
                ind_j < self.ind_buf@.len(),
                pos_sq == self.pos_buf@[pos_j as int].1@,
                inds_sq == self.ind_buf@[ind_j as int].1@,
                plen == pos_sq.len(),
                col_j matches Some(j) ==> j < self.col_buf@.len() && colsq == Some(
                    self.col_buf@[j as int].1@,
                ) && clen == self.col_buf@[j as int].1@.len(),
                col_j is None ==> colsq is None,
                forall|kk: int| 0 <= kk < k ==> {
                    let t = #[trigger] inds_sq[kk];
                    &&& t.0 < plen
                    &&& t.1 < plen
                    &&& t.2 < plen
                    &&& (col_j is Some ==> t.0 < clen && t.1 < clen && t.2 < clen)
                },
            decreases n - k,
        {
            let t = self.ind_buf[ind_j].1[k];
            proof {
                assert(t == inds_sq[k as int]);
            }
            if t.0 >= plen || t.1 >= plen || t.2 >= plen {
                proof {
                    assert(!inds_ok_s(inds_sq, pos_sq.len() as int, colsq)) by {
                        assert(inds_sq[k as int] == t);
                    }
                }
                return Err(RasterizerError::IndexOutOfBounds);
            }
            if col_j.is_some() {
                if t.0 >= clen || t.1 >= clen || t.2 >= clen {
                    proof {
                        assert(!inds_ok_s(inds_sq, pos_sq.len() as int, colsq)) by {
                            assert(inds_sq[k as int] == t);
                        }
                    }
                    return Err(RasterizerError::IndexOutOfBounds);
                }
            }
            k = k + 1;
        }
        proof {
            assert(inds_ok_s(inds_sq, pos_sq.len() as int, colsq));
        }

        let pv = self.projection.mul_mat(&self.view);
        let mvp = pv.mul_mat(&self.model);
        let ghost m0 = mvp_s(*old(self));
        let ghost wi = w as int;
        let ghost hi = h as int;
        let ghost tris = screen_tris_s(m0, pos_sq, inds_sq, colsq, wi, hi);
        proof {
            assert(tris.skip(0) =~= tris);
        }

        let mut k: usize = 0;
        while k < n
            invariant
                k <= n,
                n == inds_sq.len(),
                self.wf(),
                Self::same_setup(*self, *old(self)),
                w == self.width,
                h == self.height,
                wi == w as int,
                hi == h as int,
                pos_j < self.pos_buf@.len(),
                ind_j < self.ind_buf@.len(),
                pos_sq == self.pos_buf@[pos_j as int].1@,
                inds_sq == self.ind_buf@[ind_j as int].1@,
                plen == pos_sq.len(),
                col_j matches Some(j) ==> j < self.col_buf@.len() && colsq == Some(
                    self.col_buf@[j as int].1@,
                ),
                col_j is None ==> colsq is None,
                inds_ok_s(inds_sq, pos_sq.len() as int, colsq),
                mvp == m0,
                m0 == mvp_s(*old(self)),
                tris == screen_tris_s(m0, pos_sq, inds_sq, colsq, wi, hi),
                raster_all_s(self.frame_buf@, self.depth_buf@, tris.skip(k as int), wi, hi)
                    == raster_all_s(
                    old(self).frame_buf@,
                    old(self).depth_buf@,
                    tris,
                    wi,
                    hi,
                ),
            decreases n - k,
        {
            let ghost ki = k as int;
            let t = self.ind_buf[ind_j].1[k];
            proof {
                assert(t == inds_sq[ki]);
                assert(inds_sq[ki].0 < plen && inds_sq[ki].1 < plen && inds_sq[ki].2 < plen);
            }
            let p0 = self.pos_buf[pos_j].1[t.0];
            let p1 = self.pos_buf[pos_j].1[t.1];
            let p2 = self.pos_buf[pos_j].1[t.2];
            let sv0 = screen_vertex(&mvp, p0, w, h);
            let sv1 = screen_vertex(&mvp, p1, w, h);
            let sv2 = screen_vertex(&mvp, p2, w, h);
            let c0 = match col_j {
                Some(j) => self.col_buf[j].1[t.0],
                None => Color::new_rgb(255, 0, 0),
            };
            let c1 = match col_j {
                Some(j) => self.col_buf[j].1[t.1],
                None => Color::new_rgb(0, 255, 0),
            };
            let c2 = match col_j {
                Some(j) => self.col_buf[j].1[t.2],
                None => Color::new_rgb(0, 0, 255),
            };
            let mut tri = Triangle::new();
            tri.set_vertex(0, sv0);
            tri.set_vertex(1, sv1);
            tri.set_vertex(2, sv2);
            tri.set_color(0, c0);
            tri.set_color(1, c1);
            tri.set_color(2, c2);
            proof {
                assert(tri.v[0] == sv0 && tri.v[1] == sv1 && tri.v[2] == sv2);
                assert(tri.color[0] == c0);
                assert(tris[ki] == screen_tri_of_s(m0, pos_sq, inds_sq[ki], colsq, wi, hi));
                assert(tris[ki] == (ScreenTri { v0: sv0, v1: sv1, v2: sv2, c: c0 }));
            }
            let ok = vert_in_range(sv0) && vert_in_range(sv1) && vert_in_range(sv2);
            let ghost pre_fb = self.frame_buf@;
            let ghost pre_db = self.depth_buf@;
            if ok {
                self.rasterize_triangle(&tri);
            }
            proof {
                let st = tris[ki];
                let stepped = raster_step_s(pre_fb, pre_db, st, wi, hi);
                assert(tri_ok_s(st) == ok);
                if ok {
                    assert(self.frame_buf@ == stepped.0);
                    assert(self.depth_buf@ == stepped.1);
                } else {
                    assert(self.frame_buf@ == stepped.0);
                    assert(self.depth_buf@ == stepped.1);
                }
                assert(tris.skip(ki)[0] == st);
                assert(tris.skip(ki).drop_first() =~= tris.skip(ki + 1));
                assert(raster_all_s(pre_fb, pre_db, tris.skip(ki), wi, hi) == raster_all_s(
                    stepped.0,
                    stepped.1,
                    tris.skip(ki + 1),
                    wi,
                    hi,
                ));
            }
            k = k + 1;
        }
        proof {
            assert(tris.skip(n as int) =~= Seq::<ScreenTri>::empty());
        }
        Ok(())
    }
}

/// Integer absolute value.
pub open spec fn iabs(x: int) -> int {
    if x < 0 {
        -x
    } else {
        x
    }
}

/// A fixed-point screen coordinate truncated to its pixel column or
/// row, clamped into the `i32` range.
pub open spec fn px_of_s(v: int) -> int {
    let p = tdiv(v, FX_ONE as int);
    if p > i32::MAX {
        i32::MAX as int
    } else if p < i32::MIN {
        i32::MIN as int
    } else {
        p
    }
}

/// The endpoints normalized for the line walk: transposed when the
/// line is steep (so the walked axis is the longer one), then ordered
/// so the walk goes low to high. Yields (steep, x0, y0, x1, y1).
pub open spec fn bres_norm_s(x0: int, y0: int, x1: int, y1: int) -> (bool, int, int, int, int) {
    let steep = iabs(x0 - x1) < iabs(y0 - y1);
    let a = if steep {
        (y0, x0, y1, x1)
    } else {
        (x0, y0, x1, y1)
    };
    if a.0 > a.2 {
        (steep, a.2, a.3, a.0, a.1)
    } else {
        (steep, a.0, a.1, a.2, a.3)
    }
}

/// The pixels the line walk plots from state (x, y, err) up to x1:
/// one per column, stepping y when the accumulated error crosses dx.
/// `steep` transposes each plotted pixel back.
pub open spec fn bres_run_s(
    steep: bool,
    x: int,
    y: int,
    err: int,
    dx: int,
    dy2: int,
    ystep: int,
    x1: int,
) -> Seq<(int, int)>
    decreases x1 - x,
{
    if x >= x1 {
        Seq::empty()
    } else {
        let px = if steep {
            (y, x)
        } else {
            (x, y)
        };
        let e2 = err + dy2;
        let ny = if e2 > dx {
            y + ystep
        } else {
            y
        };
        let nerr = if e2 > dx {
            e2 - 2 * dx
        } else {
            e2
        };
        seq![px] + bres_run_s(steep, x + 1, ny, nerr, dx, dy2, ystep, x1)
    }
}

/// All pixels of the line from (x0, y0) to (x1, y1), as the integer
/// line walk plots them.
pub open spec fn bres_points_s(x0: int, y0: int, x1: int, y1: int) -> Seq<(int, int)> {
    let n = bres_norm_s(x0, y0, x1, y1);
    let ystep: int = if n.4 > n.2 {
        1
    } else {
        -1
    };
    bres_run_s(n.0, n.1, n.2, 0, n.3 - n.1, 2 * iabs(n.4 - n.2), ystep, n.3)
}

/// The framebuffer after painting a sequence of pixels with one color,
/// in order; out-of-range pixels are skipped.
pub open spec fn write_points_s(
    fb: Seq<Color>,
    pts: Seq<(int, int)>,
    c: Color,
    w: int,
    h: int,
) -> Seq<Color>
    decreases pts.len(),
{
    if pts.len() == 0 {
        fb
    } else {
        let p = pts[0];
        let fb1 = if 0 <= p.0 < w && 0 <= p.1 < h {
            fb.update(grid_idx_s(w, h, p.0, p.1), c)
        } else {
            fb
        };
        write_points_s(fb1, pts.drop_first(), c, w, h)
    }
}

/// A fixed-point coordinate truncated to its pixel, clamped into the
/// `i32` range.
fn px_of(v: i64) -> (r: i64)
    ensures
        r as int == px_of_s(v as int),
        i32::MIN as int <= r as int <= i32::MAX as int,
{
    let q: i64 = if v >= 0 {
        proof {
            vstd::arithmetic::div_mod::lemma_div_pos_is_pos(v as int, 1024);
            vstd::arithmetic::div_mod::lemma_div_nonincreasing(v as int, 1024);
        }
        ((v as u64) / 1024u64) as i64
    } else if v == i64::MIN {
        // far below any pixel the clamp can express
        -0x20_0000_0000_0000
    } else {
        let m: i64 = -v;
        proof {
            vstd::arithmetic::div_mod::lemma_div_pos_is_pos(m as int, 1024);
            vstd::arithmetic::div_mod::lemma_div_nonincreasing(m as int, 1024);
        }
        -(((m as u64) / 1024u64) as i64)
    };
    if q > 0x7fff_ffff {
        0x7fff_ffff
    } else if q < -0x8000_0000 {
        -0x8000_0000
    } else {
        q
    }
}

impl Rasterizer {
    /// Paint one pixel unconditionally (no depth test); out-of-range
    /// coordinates are silently ignored.
    fn set_pixel_over(&mut self, x: i64, y: i64, color: Color)
        requires
            old(self).wf(),
        ensures
            final(self).wf(),
            Self::same_setup(*final(self), *old(self)),
            final(self).depth_buf@ == old(self).depth_buf@,
            final(self).frame_buf@ == (if 0 <= (x as int) && (x as int) < old(self).width as int
                && 0 <= (y as int) && (y as int) < old(self).height as int {
                old(self).frame_buf@.update(
                    grid_idx_s(old(self).width as int, old(self).height as int, x as int, y as int),
                    color,
                )
            } else {
                old(self).frame_buf@
            }),
    {
        if x >= 0 && y >= 0 && x < self.width as i64 && y < self.height as i64 {
            let i = self.get_index(x as u32, y as u32);
            self.frame_buf[i] = color;
        }
    }

    /// Draw a straight line segment between two screen-space endpoints
    /// with the integer line walk, painting each of its pixels with the
    /// given color (wireframe drawing is not depth-tested: it paints
    /// over whatever is there).
    pub fn draw_line(&mut self, begin: Vec3, end: Vec3, color: Color)
        requires
            old(self).wf(),
        ensures
            final(self).wf(),
            Self::same_setup(*final(self), *old(self)),
            final(self).depth_buf@ == old(self).depth_buf@,
            final(self).frame_buf@ == write_points_s(
                old(self).frame_buf@,
                bres_points_s(
                    px_of_s(begin.x as int),
                    px_of_s(begin.y as int),
                    px_of_s(end.x as int),
                    px_of_s(end.y as int),
                ),
                color,
                old(self).width as int,
                old(self).height as int,
            ),
    {
        let x0i = px_of(begin.x);
        let y0i = px_of(begin.y);
        let x1i = px_of(end.x);
        let y1i = px_of(end.y);
        let dxa = if x0i >= x1i {
            x0i - x1i
        } else {
            x1i - x0i
        };
        let dya = if y0i >= y1i {
            y0i - y1i
        } else {
            y1i - y0i
        };
        let steep = dxa < dya;
        let (ax0, ay0, ax1, ay1) = if steep {
            (y0i, x0i, y1i, x1i)
        } else {
            (x0i, y0i, x1i, y1i)
        };
        let (bx0, by0, bx1, by1) = if ax0 > ax1 {
            (ax1, ay1, ax0, ay0)
        } else {
            (ax0, ay0, ax1, ay1)
        };
        proof {
            assert(bres_norm_s(x0i as int, y0i as int, x1i as int, y1i as int) == (
                steep,
                bx0 as int,
                by0 as int,
                bx1 as int,
                by1 as int,
            ));
        }
        let dx = bx1 - bx0;
        let dy2 = 2 * (if by1 >= by0 {
            by1 - by0
        } else {
            by0 - by1
        });
        let ystep: i64 = if by1 > by0 {
            1
        } else {
            -1
        };
        let ghost pts = bres_points_s(
            px_of_s(begin.x as int),
            px_of_s(begin.y as int),
            px_of_s(end.x as int),
            px_of_s(end.y as int),
        );
        let ghost w0 = old(self).width as int;
        let ghost h0 = old(self).height as int;
        let mut error2: i64 = 0;
        let mut y = by0;
        let mut x = bx0;
        while x < bx1
            invariant
                self.wf(),
                Self::same_setup(*self, *old(self)),
                self.depth_buf@ == old(self).depth_buf@,
                w0 == old(self).width as int,
                h0 == old(self).height as int,
                bx0 <= x <= bx1,
                dx == bx1 - bx0,
                0 <= dy2 <= 2 * dx,
                -0x8000_0000 <= bx0 <= 0x7fff_ffff,
                -0x8000_0000 <= bx1 <= 0x7fff_ffff,
                -0x8000_0000 <= by0 <= 0x7fff_ffff,
                ystep == 1i64 || ystep == -1i64,
                -dx <= error2 <= dx,
                by0 - (x - bx0) <= y <= by0 + (x - bx0),
                write_points_s(
                    self.frame_buf@,
                    bres_run_s(
                        steep,
                        x as int,
                        y as int,
                        error2 as int,
                        dx as int,
                        dy2 as int,
                        ystep as int,
                        bx1 as int,
                    ),
                    color,
                    w0,
                    h0,
                ) == write_points_s(old(self).frame_buf@, pts, color, w0, h0),
            decreases bx1 - x,
        {
            let ghost pre_fb = self.frame_buf@;
            let ghost xg = x as int;
            let ghost yg = y as int;
            let ghost run = bres_run_s(
                steep,
                x as int,
                y as int,
                error2 as int,
                dx as int,
                dy2 as int,
                ystep as int,
                bx1 as int,
            );
            if steep {
                self.set_pixel_over(y, x, color);
            } else {
                self.set_pixel_over(x, y, color);
            }
            error2 = error2 + dy2;
            if error2 > dx {
                y = y + ystep;
                error2 = error2 - 2 * dx;
            }
            x = x + 1;
            proof {
                let nrun = bres_run_s(
                    steep,
                    x as int,
                    y as int,
                    error2 as int,
                    dx as int,
                    dy2 as int,
                    ystep as int,
                    bx1 as int,
                );
                assert(run.len() > 0);
                assert(run[0] == (if steep {
                    (yg, xg)
                } else {
                    (xg, yg)
                }));
                assert(run.drop_first() =~= nrun);
                assert(write_points_s(pre_fb, run, color, w0, h0) == write_points_s(
                    self.frame_buf@,
                    nrun,
                    color,
                    w0,
                    h0,
                ));
            }
        }
        proof {
            assert(bres_run_s(
                steep,
                x as int,
                y as int,
                error2 as int,
                dx as int,
                dy2 as int,
                ystep as int,
                bx1 as int,
            ) =~= Seq::<(int, int)>::empty());
        }
    }

    /// Draw the three edges of a triangle, each with its corner color.
    pub fn rasterize_wireframe(&mut self, t: &Triangle)
        requires
            old(self).wf(),
        ensures
            final(self).wf(),
            Self::same_setup(*final(self), *old(self)),
            final(self).depth_buf@ == old(self).depth_buf@,
            ({
                let w = old(self).width as int;
                let h = old(self).height as int;
                let e01 = bres_points_s(
                    px_of_s(t.v[0].x as int),
                    px_of_s(t.v[0].y as int),
                    px_of_s(t.v[1].x as int),
                    px_of_s(t.v[1].y as int),
                );
                let e12 = bres_points_s(
                    px_of_s(t.v[1].x as int),
                    px_of_s(t.v[1].y as int),
                    px_of_s(t.v[2].x as int),
                    px_of_s(t.v[2].y as int),
                );
                let e20 = bres_points_s(
                    px_of_s(t.v[2].x as int),
                    px_of_s(t.v[2].y as int),
                    px_of_s(t.v[0].x as int),
                    px_of_s(t.v[0].y as int),
                );
                final(self).frame_buf@ == write_points_s(
                    write_points_s(
                        write_points_s(old(self).frame_buf@, e01, t.color[0], w, h),
                        e12,
                        t.color[1],
                        w,
                        h,
                    ),
                    e20,
                    t.color[2],
                    w,
                    h,
                )
            }),
    {
        let v0 = t.v[0];
        let v1 = t.v[1];
        let v2 = t.v[2];
        self.draw_line(v0, v1, t.color[0]);
        self.draw_line(v1, v2, t.color[1]);
        self.draw_line(v2, v0, t.color[2]);
    }
}

/// A handle freshly issued between two states: it carries the counter
/// value of the first state, and the second state's counter has moved
/// past it. Every load call establishes this relation.
pub open spec fn fresh_handle_s(pre: Rasterizer, post: Rasterizer, id: u32) -> bool {
    id == pre.next_id && post.next_id == pre.next_id + 1
}

/// Law: the depth test makes pixel writes commute. For one cell written
/// twice with distinct depths, the final color and depth equal what the
/// nearer write alone leaves there, whichever order the two writes
/// arrive in.
pub proof fn lemma_depth_test_commutes(
    fb: Seq<Color>,
    db: Seq<i64>,
    i: int,
    c1: Color,
    z1: i64,
    c2: Color,
    z2: i64,
)
    requires
        0 <= i < fb.len(),
        db.len() == fb.len(),
        z1 != z2,
    ensures
        ({
            let fb12 = write_pixel_fb_s(
                write_pixel_fb_s(fb, db, i, c1, z1 as int),
                write_pixel_db_s(db, i, z1 as int),
                i,
                c2,
                z2 as int,
            );
            let db12 = write_pixel_db_s(write_pixel_db_s(db, i, z1 as int), i, z2 as int);
            let fb21 = write_pixel_fb_s(
                write_pixel_fb_s(fb, db, i, c2, z2 as int),
                write_pixel_db_s(db, i, z2 as int),
                i,
                c1,
                z1 as int,
            );
            let db21 = write_pixel_db_s(write_pixel_db_s(db, i, z2 as int), i, z1 as int);
            let nearer_fb = if z1 < z2 {
                write_pixel_fb_s(fb, db, i, c1, z1 as int)
            } else {
                write_pixel_fb_s(fb, db, i, c2, z2 as int)
            };
            let nearer_db = if z1 < z2 {
                write_pixel_db_s(db, i, z1 as int)
            } else {
                write_pixel_db_s(db, i, z2 as int)
            };
            &&& fb12 == nearer_fb
            &&& db12 == nearer_db
            &&& fb21 == nearer_fb
            &&& db21 == nearer_db
        }),
{
    let fb12 = write_pixel_fb_s(
        write_pixel_fb_s(fb, db, i, c1, z1 as int),
        write_pixel_db_s(db, i, z1 as int),
        i,
        c2,
        z2 as int,
    );
    let db12 = write_pixel_db_s(write_pixel_db_s(db, i, z1 as int), i, z2 as int);
    let fb21 = write_pixel_fb_s(
        write_pixel_fb_s(fb, db, i, c2, z2 as int),
        write_pixel_db_s(db, i, z2 as int),
        i,
        c1,
        z1 as int,
    );
    let db21 = write_pixel_db_s(write_pixel_db_s(db, i, z2 as int), i, z1 as int);
    let nearer_fb = if z1 < z2 {
        write_pixel_fb_s(fb, db, i, c1, z1 as int)
    } else {
        write_pixel_fb_s(fb, db, i, c2, z2 as int)
    };
    let nearer_db = if z1 < z2 {
        write_pixel_db_s(db, i, z1 as int)
    } else {
        write_pixel_db_s(db, i, z2 as int)
    };
    assert(fb12 =~= nearer_fb);
    assert(db12 =~= nearer_db);
    assert(fb21 =~= nearer_fb);
    assert(db21 =~= nearer_db);
}

/// Law: a degenerate triangle — its three corners one point — covers no
/// pixel: its barycentric denominator is zero, so scan conversion
/// leaves the framebuffer and the depth buffer unchanged.
pub proof fn lemma_degenerate_triangle_draws_nothing(
    fb: Seq<Color>,
    db: Seq<i64>,
    c: Color,
    v: Vec3,
    w: int,
    h: int,
)
    ensures
        raster_fb_s(fb, db, c, v, v, v, w, h) == fb,
        raster_db_s(db, v, v, v, w, h) == db,
{
    assert(bary_d_s(v, v, v) == 0);
    assert(raster_fb_s(fb, db, c, v, v, v, w, h) =~= fb);
    assert(raster_db_s(db, v, v, v, w, h) =~= db);
}

/// Law: three arrays loaded in sequence — whatever their kinds — come
/// back under three pairwise distinct handles, because every load
/// returns the shared counter's value and moves the counter past it.
pub proof fn lemma_sequential_handles_distinct(
    s0: Rasterizer,
    s1: Rasterizer,
    s2: Rasterizer,
    s3: Rasterizer,
    a: u32,
    b: u32,
    c: u32,
)
    requires
        fresh_handle_s(s0, s1, a),
        fresh_handle_s(s1, s2, b),
        fresh_handle_s(s2, s3, c),
    ensures
        a != b,
        b != c,
        a != c,
{
}

/// Finding `id` at position `j`, with no earlier occurrence, is what
/// lookup returns.
proof fn lemma_lookup_at<T>(entries: Seq<(u32, T)>, id: u32, j: int)
    requires
        0 <= j < entries.len(),
        entries[j].0 == id,
        forall|k: int| 0 <= k < j ==> (#[trigger] entries[k]).0 != id,
    ensures
        lookup_s(entries, id) == Some(entries[j].1),
    decreases j,
{
    if j > 0 {
        lemma_lookup_at(entries.drop_first(), id, j - 1);
    }
}

/// An id that occurs nowhere is not found.
proof fn lemma_lookup_absent<T>(entries: Seq<(u32, T)>, id: u32)
    requires
        forall|k: int| 0 <= k < entries.len() ==> (#[trigger] entries[k]).0 != id,
    ensures
        lookup_s(entries, id) is None,
    decreases entries.len(),
{
    if entries.len() > 0 {
        lemma_lookup_absent(entries.drop_first(), id);
    }
}

/// Pushing a new id onto a registry makes lookup of that id find it,
/// provided the id was not present before.
proof fn lemma_lookup_push<T>(entries: Seq<(u32, T)>, id: u32, data: T)
    requires
        lookup_s(entries, id) is None,
    ensures
        lookup_s(entries.push((id, data)), id) == Some(data),
    decreases entries.len(),
{
    if entries.len() == 0 {
        assert(entries.push((id, data)).drop_first() =~= Seq::<(u32, T)>::empty());
    } else {
        assert(entries.push((id, data)).drop_first() =~= entries.drop_first().push((id, data)));
        lemma_lookup_push(entries.drop_first(), id, data);
    }
}

/// An id at or above every registered id is not registered.
proof fn lemma_lookup_below<T>(entries: Seq<(u32, T)>, id: u32)
    requires
        ids_below_s(entries, id),
    ensures
        lookup_s(entries, id) is None,
    decreases entries.len(),
{
    if entries.len() > 0 {
        assert(ids_below_s(entries.drop_first(), id));
        lemma_lookup_below(entries.drop_first(), id);
    }
}

} // verus!
