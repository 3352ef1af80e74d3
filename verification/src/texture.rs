//! Textures, animation frames and their texel coordinates.
//!
//! A frame is a sub-rectangle of a texture in pixel space. Its UV corners
//! are held as exact pixel numerators: the normalized coordinate a shader
//! sees is `numerator / texture_dimension`, so a numerator between `0` and
//! the texture dimension is exactly a UV inside `[0, 1]`, and scaling a UV
//! back by the texture size returns the numerator unchanged. The host
//! performs the one lossy step, dividing to floats, when it fills the
//! uniform buffer.

use vstd::prelude::*;

verus! {

/// One UV corner, as pixel numerators over the texture's dimensions.
#[derive(Clone, Copy, Debug, PartialEq, Eq, Structural)]
pub struct Uv {
    pub u: u32,
    pub v: u32,
}

/// The four UV corners of a frame, in the winding order the vertex shader
/// indexes them by: `frame * 4 + corner`.
#[derive(Clone, Copy, Debug, PartialEq, Eq, Structural)]
pub struct Texcoords {
    pub top_right: Uv,
    pub bottom_right: Uv,
    pub bottom_left: Uv,
    pub top_left: Uv,
}

/// An animation frame: a rectangle of a texture in pixel space, with its
/// cached texel corners.
#[derive(Clone, Copy, Debug, PartialEq, Eq, Structural)]
pub struct Frame {
    pub x: u32,
    pub y: u32,
    pub w: u32,
    pub h: u32,
    pub texcoords: Texcoords,
}

/// The texel corners derived from a frame rectangle: corner numerators are
/// the rectangle's own pixel bounds.
pub open spec fn spec_texcoords(x: u32, y: u32, w: u32, h: u32) -> Texcoords {
    Texcoords {
        top_right: Uv { u: (x + w) as u32, v: (y + h) as u32 },
        bottom_right: Uv { u: (x + w) as u32, v: y },
        bottom_left: Uv { u: x, v: y },
        top_left: Uv { u: x, v: (y + h) as u32 },
    }
}

/// A corner is inside the unit square exactly when its numerators do not
/// exceed the texture's dimensions.
pub open spec fn spec_uv_normalized(uv: Uv, tex_w: u32, tex_h: u32) -> bool {
    uv.u <= tex_w && uv.v <= tex_h
}

/// All four corners inside the unit square.
pub open spec fn spec_texcoords_normalized(tc: Texcoords, tex_w: u32, tex_h: u32) -> bool {
    &&& spec_uv_normalized(tc.top_right, tex_w, tex_h)
    &&& spec_uv_normalized(tc.bottom_right, tex_w, tex_h)
    &&& spec_uv_normalized(tc.bottom_left, tex_w, tex_h)
    &&& spec_uv_normalized(tc.top_left, tex_w, tex_h)
}

impl Frame {
    /// The rectangle lies inside a texture of the given dimensions and the
    /// cached corners are exactly the ones derived from it.
    pub open spec fn spec_wf(self, tex_w: u32, tex_h: u32) -> bool {
        &&& self.x + self.w <= tex_w
        &&& self.y + self.h <= tex_h
        &&& self.texcoords == spec_texcoords(self.x, self.y, self.w, self.h)
    }

    /// Recompute the cached texel corners from the rectangle.
    pub fn generate_texcoords(&mut self, tex_width: u32, tex_height: u32)
        requires
            old(self).x + old(self).w <= tex_width,
            old(self).y + old(self).h <= tex_height,
        ensures
            final(self).texcoords == spec_texcoords(old(self).x, old(self).y, old(self).w, old(self).h),
            final(self).x == old(self).x,
            final(self).y == old(self).y,
            final(self).w == old(self).w,
            final(self).h == old(self).h,
            final(self).spec_wf(tex_width, tex_height),
    {
        self.texcoords = Texcoords {
            top_right: Uv { u: self.x + self.w, v: self.y + self.h },
            bottom_right: Uv { u: self.x + self.w, v: self.y },
            bottom_left: Uv { u: self.x, v: self.y },
            top_left: Uv { u: self.x, v: self.y + self.h },
        };
    }
}

/// A well-formed frame's corners are all inside the unit square.
pub proof fn lemma_texcoords_normalized(f: Frame, tex_w: u32, tex_h: u32)
    requires
        f.spec_wf(tex_w, tex_h),
    ensures
        spec_texcoords_normalized(f.texcoords, tex_w, tex_h),
{
}

/// Round trip: deriving texel corners and scaling them back by the texture
/// dimensions recovers the rectangle exactly. The bottom-left corner is the
/// frame's position; the top-right corner is its position plus its size.
pub proof fn lemma_texcoords_round_trip(x: u32, y: u32, w: u32, h: u32, tex_w: u32, tex_h: u32)
    requires
        x + w <= tex_w,
        y + h <= tex_h,
    ensures
        spec_texcoords(x, y, w, h).bottom_left == (Uv { u: x, v: y }),
        spec_texcoords(x, y, w, h).top_right == (Uv { u: (x + w) as u32, v: (y + h) as u32 }),
        spec_texcoords(x, y, w, h).bottom_right == (Uv { u: (x + w) as u32, v: y }),
        spec_texcoords(x, y, w, h).top_left == (Uv { u: x, v: (y + h) as u32 }),
{
}

impl Frame {
    /// Build a frame at a rectangle, with its corners already derived.
    pub fn new_at(x: u32, y: u32, w: u32, h: u32) -> (f: Frame)
        requires
            x + w <= u32::MAX,
            y + h <= u32::MAX,
        ensures
            f.x == x && f.y == y && f.w == w && f.h == h,
            f.texcoords == spec_texcoords(x, y, w, h),
    {
        Frame {
            x,
            y,
            w,
            h,
            texcoords: Texcoords {
                top_right: Uv { u: x + w, v: y + h },
                bottom_right: Uv { u: x + w, v: y },
                bottom_left: Uv { u: x, v: y },
                top_left: Uv { u: x, v: y + h },
            },
        }
    }
}

/// Errors of the texture subsystem. In the running game every one of them
/// is a configuration error: the host aborts with a message naming the
/// failing subsystem.
#[derive(Clone, Copy, Debug, PartialEq, Eq, Structural)]
pub enum TextureError {
    /// More frames requested than the texture's frame grid holds.
    FrameOverflow,
    /// The fixed-capacity registry has no free slot left.
    RegistryFull,
    /// The image bytes could not be decoded.
    DecodeFailed,
}

/// How many frames of size `fw` by `fh` fit into a texture: a full grid of
/// whole frames, rows times columns.
pub open spec fn spec_frame_capacity(tex_w: u32, tex_h: u32, fw: u32, fh: u32) -> int
    recommends
        fw > 0,
        fh > 0,
{
    (tex_w as int / fw as int) * (tex_h as int / fh as int)
}

/// The frame at row-major slot `i` of the grid: rows fill left to right,
/// starting at the texture's top row (largest pixel `y`, with the origin at
/// the bottom) and moving down.
pub open spec fn spec_packed_frame(tex_w: u32, tex_h: u32, fw: u32, fh: u32, i: int) -> Frame
    recommends
        fw > 0,
        fh > 0,
{
    let per_row = tex_w as int / fw as int;
    let col = i % per_row;
    let row = i / per_row;
    let x = col * fw;
    let y = tex_h - (row + 1) * fh;
    Frame {
        x: x as u32,
        y: y as u32,
        w: fw,
        h: fh,
        texcoords: spec_texcoords(x as u32, y as u32, fw, fh),
    }
}

/// The full packing of `count` frames.
pub open spec fn spec_packed_frames(tex_w: u32, tex_h: u32, fw: u32, fh: u32, count: int) -> Seq<
    Frame,
>
    recommends
        fw > 0,
        fh > 0,
        0 <= count,
{
    Seq::new(count as nat, |i: int| spec_packed_frame(tex_w, tex_h, fw, fh, i))
}

/// Bounds of one row-major grid slot: its rectangle lies inside the
/// texture.
proof fn lemma_packed_slot(tex_w: u32, tex_h: u32, fw: u32, fh: u32, count: int, i: int)
    requires
        fw > 0,
        fh > 0,
        0 <= i < count,
        count <= spec_frame_capacity(tex_w, tex_h, fw, fh),
    ensures
        ({
            let per_row = tex_w as int / fw as int;
            let col = i % per_row;
            let row = i / per_row;
            &&& per_row > 0
            &&& 0 <= col < per_row
            &&& 0 <= row < tex_h as int / fh as int
            &&& 0 <= col * fw
            &&& col * fw + fw <= tex_w
            &&& fh <= (row + 1) * fh <= tex_h
        }),
{
    let per_row = tex_w as int / fw as int;
    let per_col = tex_h as int / fh as int;
    vstd::arithmetic::div_mod::lemma_div_pos_is_pos(tex_w as int, fw as int);
    vstd::arithmetic::div_mod::lemma_div_pos_is_pos(tex_h as int, fh as int);
    assert(per_row > 0) by (nonlinear_arith)
        requires
            0 <= per_row,
            0 <= per_col,
            0 < i + 1 <= count <= per_row * per_col,
    {
    }
    let col = i % per_row;
    let row = i / per_row;
    vstd::arithmetic::div_mod::lemma_mod_division_less_than_divisor(i, per_row);
    vstd::arithmetic::div_mod::lemma_mod_bound(i, per_row);
    vstd::arithmetic::div_mod::lemma_div_pos_is_pos(i, per_row);
    vstd::arithmetic::div_mod::lemma_multiply_divide_lt(i, per_row, per_col);
    vstd::arithmetic::div_mod::lemma_fundamental_div_mod(tex_w as int, fw as int);
    vstd::arithmetic::div_mod::lemma_fundamental_div_mod(tex_h as int, fh as int);
    assert(col * fw + fw <= tex_w) by (nonlinear_arith)
        requires
            0 <= col < per_row,
            fw > 0,
            tex_w == fw * per_row + tex_w as int % fw as int,
            tex_w as int % fw as int >= 0,
    {
    }
    assert(0 <= col * fw) by (nonlinear_arith)
        requires
            0 <= col,
            fw > 0,
    {
    }
    assert(fh <= (row + 1) * fh <= tex_h) by (nonlinear_arith)
        requires
            0 <= row < per_col,
            fh > 0,
            tex_h == fh * per_col + tex_h as int % fh as int,
            tex_h as int % fh as int >= 0,
    {
    }
}

/// Every frame of a fitting request is well formed, so all its texel
/// corners lie inside the unit square. This is the safe half of the
/// packing contract: a request within capacity yields exactly `count`
/// frames, each normalized.
pub proof fn lemma_packed_frames_normalized(tex_w: u32, tex_h: u32, fw: u32, fh: u32, count: int)
    requires
        fw > 0,
        fh > 0,
        0 <= count <= spec_frame_capacity(tex_w, tex_h, fw, fh),
    ensures
        spec_packed_frames(tex_w, tex_h, fw, fh, count).len() == count,
        forall|i: int|
            0 <= i < count ==> (#[trigger] spec_packed_frames(tex_w, tex_h, fw, fh, count)[i]).spec_wf(
                tex_w,
                tex_h,
            ),
        forall|i: int|
            0 <= i < count ==> spec_texcoords_normalized(
                (#[trigger] spec_packed_frames(tex_w, tex_h, fw, fh, count)[i]).texcoords,
                tex_w,
                tex_h,
            ),
{
    assert forall|i: int| 0 <= i < count implies (#[trigger] spec_packed_frames(
        tex_w,
        tex_h,
        fw,
        fh,
        count,
    )[i]).spec_wf(tex_w, tex_h) by {
        lemma_packed_slot(tex_w, tex_h, fw, fh, count, i);
    }
    assert forall|i: int| 0 <= i < count implies spec_texcoords_normalized(
        (#[trigger] spec_packed_frames(tex_w, tex_h, fw, fh, count)[i]).texcoords,
        tex_w,
        tex_h,
    ) by {
        lemma_packed_slot(tex_w, tex_h, fw, fh, count, i);
    }
}

/// The flattened, shader-consumable corner buffer of a frame list, indexed
/// by `frame * 4 + corner`.
pub open spec fn spec_flat_texcoords(frames: Seq<Frame>) -> Seq<Uv> {
    Seq::new(4 * frames.len(), |i: int| spec_corner(frames[i / 4].texcoords, i % 4))
}

/// Corner `c` of a frame's texcoords, in shader winding order.
pub open spec fn spec_corner(tc: Texcoords, c: int) -> Uv {
    if c == 0 {
        tc.top_right
    } else if c == 1 {
        tc.bottom_right
    } else if c == 2 {
        tc.bottom_left
    } else {
        tc.top_left
    }
}

/// A texture living on the GPU: its driver-owned handle, its pixel
/// dimensions, the filename it was loaded from (the registry's identity
/// key), and its generated frames.
#[derive(Debug)]
pub struct Texture {
    /// GPU texture name; an opaque handle owned by the driver.
    pub id: u32,
    pub width: u32,
    pub height: u32,
    pub filename: String,
    /// False once the texture's GPU memory was released.
    pub loaded: bool,
    pub frames: Vec<Frame>,
    pub texcoords_buffer: Vec<Uv>,
}

impl Texture {
    /// Frames fit the texture and carry their derived corners; the corner
    /// buffer, when generated, is exactly the flattening of the frames.
    pub open spec fn spec_wf(self) -> bool {
        &&& forall|i: int|
            0 <= i < self.frames@.len() ==> (#[trigger] self.frames@[i]).spec_wf(
                self.width,
                self.height,
            )
        &&& (self.texcoords_buffer@.len() == 0 || self.texcoords_buffer@ == spec_flat_texcoords(
            self.frames@,
        ))
    }

    /// A fresh texture with no frames.
    pub fn new(id: u32, width: u32, height: u32, filename: String) -> (t: Texture)
        ensures
            t.id == id && t.width == width && t.height == height,
            t.filename@ == filename@,
            t.loaded,
            t.frames@.len() == 0,
            t.texcoords_buffer@.len() == 0,
            t.spec_wf(),
    {
        Texture {
            id,
            width,
            height,
            filename,
            loaded: true,
            frames: Vec::new(),
            texcoords_buffer: Vec::new(),
        }
    }

    /// Pack `count` frames of the requested pixel size into this texture's
    /// frame grid, row-major from the top row down. Fails, leaving the
    /// texture untouched, exactly when the request exceeds the grid's
    /// capacity; a failed request leaves no partial frame list behind.
    pub fn add_frames(&mut self, frame_width: u32, frame_height: u32, count: usize) -> (r: Result<
        (),
        TextureError,
    >)
        requires
            frame_width > 0,
            frame_height > 0,
        ensures
            r is Ok <==> count <= spec_frame_capacity(
                old(self).width,
                old(self).height,
                frame_width,
                frame_height,
            ),
            r is Ok ==> final(self).frames@ == spec_packed_frames(
                old(self).width,
                old(self).height,
                frame_width,
                frame_height,
                count as int,
            ),
            r is Ok ==> final(self).texcoords_buffer@.len() == 0,
            r is Ok ==> final(self).spec_wf(),
            r is Err ==> *final(self) == *old(self) && r == Err::<(), TextureError>(
                TextureError::FrameOverflow,
            ),
            final(self).id == old(self).id,
            final(self).width == old(self).width,
            final(self).height == old(self).height,
            final(self).filename@ == old(self).filename@,
            final(self).loaded == old(self).loaded,
    {
        let per_row = self.width / frame_width;
        let per_col = self.height / frame_height;
        proof {
            assert(per_row as int * per_col as int <= 0xffff_ffff * 0xffff_ffff)
                by (nonlinear_arith)
                requires
                    0 <= per_row <= 0xffff_ffffu64,
                    0 <= per_col <= 0xffff_ffffu64,
            {
            }
        }
        let capacity = per_row as u64 * per_col as u64;
        if count as u64 > capacity {
            return Err(TextureError::FrameOverflow);
        }
        let width = self.width;
        let height = self.height;
        let ghost packed = spec_packed_frames(width, height, frame_width, frame_height, count as int);
        let mut frames: Vec<Frame> = Vec::new();
        let mut i: usize = 0;
        while i < count
            invariant
                0 <= i <= count,
                frame_width > 0,
                frame_height > 0,
                count <= spec_frame_capacity(width, height, frame_width, frame_height),
                per_row == width as int / frame_width as int,
                packed == spec_packed_frames(width, height, frame_width, frame_height, count as int),
                frames@.len() == i,
                forall|j: int| 0 <= j < i ==> frames@[j] == packed[j],
            decreases count - i,
        {
            proof {
                lemma_packed_slot(width, height, frame_width, frame_height, count as int, i as int);
            }
            let row = i / (per_row as usize);
            let col = i % (per_row as usize);
            let x = (col as u32) * frame_width;
            let y = height - ((row as u32) + 1) * frame_height;
            let f = Frame::new_at(x, y, frame_width, frame_height);
            frames.push(f);
            i = i + 1;
        }
        assert(frames@ =~= packed);
        self.frames = frames;
        self.texcoords_buffer = Vec::new();
        proof {
            lemma_packed_frames_normalized(
                width,
                height,
                frame_width,
                frame_height,
                count as int,
            );
        }
        Ok(())
    }

    /// Flatten every frame's corners into the upload-ready buffer. Its
    /// length is always exactly four per frame.
    pub fn generate_texcoords_buffer(&mut self)
        ensures
            final(self).texcoords_buffer@ == spec_flat_texcoords(old(self).frames@),
            final(self).texcoords_buffer@.len() == 4 * old(self).frames@.len(),
            final(self).frames == old(self).frames,
            final(self).id == old(self).id,
            final(self).width == old(self).width,
            final(self).height == old(self).height,
            final(self).filename@ == old(self).filename@,
            final(self).loaded == old(self).loaded,
            old(self).spec_wf() ==> final(self).spec_wf(),
    {
        let ghost frames_view = self.frames@;
        let mut buffer: Vec<Uv> = Vec::new();
        let mut i: usize = 0;
        let n = self.frames.len();
        while i < n
            invariant
                0 <= i <= n,
                n == frames_view.len(),
                self.frames@ == frames_view,
                buffer@.len() == 4 * i,
                forall|j: int| 0 <= j < 4 * i ==> buffer@[j] == spec_flat_texcoords(frames_view)[j],
            decreases n - i,
        {
            let tc = self.frames[i].texcoords;
            buffer.push(tc.top_right);
            buffer.push(tc.bottom_right);
            buffer.push(tc.bottom_left);
            buffer.push(tc.top_left);
            proof {
                assert forall|j: int| 4 * i <= j < 4 * (i + 1) implies buffer@[j]
                    == spec_flat_texcoords(frames_view)[j] by {
                    assert(j / 4 == i && (j % 4 == 0 || j % 4 == 1 || j % 4 == 2 || j % 4 == 3));
                }
            }
            i = i + 1;
        }
        assert(buffer@ =~= spec_flat_texcoords(frames_view));
        self.texcoords_buffer = buffer;
    }

    /// The frame in slot `i` of this texture's atlas.
    pub fn frame_at(&self, i: usize) -> (f: &Frame)
        requires
            i < self.frames@.len(),
        ensures
            *f == self.frames@[i as int],
    {
        &self.frames[i]
    }

    /// Release this texture's slot; the registry no longer finds it by
    /// name. The caller must free the GPU handle itself.
    pub fn unload(&mut self)
        ensures
            *final(self) == (Texture { loaded: false, ..*old(self) }),
    {
        self.loaded = false;
    }
}

/// Capacity of the texture registry. Exceeding it is a configuration
/// error, not a recoverable one; size it generously.
pub const MAX_TEXTURES: usize = 10;

/// A pending GPU upload: the host binds texture `id`, sets
/// nearest-neighbour filtering and repeat wrapping, and submits `pixels`
/// as a `width` by `height` RGBA image.
#[derive(Debug, PartialEq, Eq)]
pub struct UploadCmd {
    pub id: u32,
    pub width: u32,
    pub height: u32,
    pub pixels: Vec<u8>,
}

/// What the decoder yields for a byte string, if anything: width, height,
/// and the RGBA pixel bytes. Decoding is a pure function of the bytes.
pub uninterp spec fn decoded_rgba(bytes: Seq<u8>) -> Option<(u32, u32, Seq<u8>)>;

/// Relies on `image::load_from_memory` and `DynamicImage::to_rgba8`: what
/// they decode depends on the encoded bytes alone, and an RGBA8 buffer
/// holds exactly four bytes per pixel (`ImageBuffer` documents the raw
/// container as width times height times channel count).
#[verifier::external_body]
fn decode_rgba(bytes: &Vec<u8>) -> (r: Option<(u32, u32, Vec<u8>)>)
    ensures
        r is Some <==> decoded_rgba(bytes@) is Some,
        r matches Some(d) ==> {
            &&& decoded_rgba(bytes@) matches Some(m) && d.0 == m.0 && d.1 == m.1 && d.2@ == m.2
            &&& d.2@.len() == 4 * d.0 * d.1
        },
{
    match image::load_from_memory(bytes) {
        Ok(img) => {
            let rgba = img.to_rgba8();
            let (w, h) = rgba.dimensions();
            Some((w, h, rgba.into_raw()))
        }
        Err(_) => None,
    }
}

/// First still-loaded slot at or after `i` whose filename is `name`.
pub open spec fn spec_find_from(s: Seq<Texture>, name: Seq<char>, i: int) -> Option<int>
    decreases s.len() - i,
    when 0 <= i <= s.len()
{
    if i >= s.len() {
        None
    } else if s[i].loaded && s[i].filename@ == name {
        Some(i)
    } else {
        spec_find_from(s, name, i + 1)
    }
}

/// First still-loaded slot whose filename is `name`.
pub open spec fn spec_find(s: Seq<Texture>, name: Seq<char>) -> Option<int> {
    spec_find_from(s, name, 0)
}

/// A successful search points at a loaded slot carrying the name.
proof fn lemma_find_some(s: Seq<Texture>, name: Seq<char>, i: int)
    requires
        0 <= i <= s.len(),
        spec_find_from(s, name, i) is Some,
    ensures
        ({
            let k = spec_find_from(s, name, i)->Some_0;
            &&& i <= k < s.len()
            &&& s[k].loaded
            &&& s[k].filename@ == name
        }),
    decreases s.len() - i,
{
    if i < s.len() && !(s[i].loaded && s[i].filename@ == name) {
        lemma_find_some(s, name, i + 1);
    }
}

/// A failed search means no loaded slot from `i` on carries the name.
proof fn lemma_find_none(s: Seq<Texture>, name: Seq<char>, i: int)
    requires
        0 <= i <= s.len(),
        spec_find_from(s, name, i) is None,
    ensures
        forall|j: int| i <= j < s.len() && (#[trigger] s[j]).loaded ==> s[j].filename@ != name,
    decreases s.len() - i,
{
    if i < s.len() {
        lemma_find_none(s, name, i + 1);
    }
}

/// Appending a loaded texture with a hitherto absent name makes the search
/// find exactly that new slot.
proof fn lemma_find_push(s: Seq<Texture>, t: Texture, name: Seq<char>, i: int)
    requires
        0 <= i <= s.len(),
        spec_find_from(s, name, i) is None,
        t.loaded,
        t.filename@ == name,
    ensures
        spec_find_from(s.push(t), name, i) == Some(s.len() as int),
    decreases s.len() - i,
{
    if i < s.len() {
        lemma_find_push(s, t, name, i + 1);
    }
}

/// Loading is idempotent per filename. `load`'s contract returns the
/// existing handle, uploads nothing and changes nothing whenever the
/// search finds the name; this law closes the loop: a fresh load pushes
/// a slot that the search then finds, and finds first, so an immediate
/// second load of the same name takes the dedup branch and hands back
/// the identical handle, with exactly the one upload ever performed.
pub proof fn lemma_load_idempotent(s: Seq<Texture>, t: Texture)
    requires
        spec_find(s, t.filename@) is None,
        t.loaded,
    ensures
        spec_find(s.push(t), t.filename@) == Some(s.len() as int),
{
    lemma_find_push(s, t, t.filename@, 0);
}

/// The texture registry: loads images onto the GPU at most once per
/// filename and hands out handles (slot indices) that stay valid for the
/// registry's lifetime, across module reloads included.
#[derive(Debug)]
pub struct TextureManager {
    pub textures: Vec<Texture>,
}

impl TextureManager {
    /// Bounded, well-formed slots, and no filename owned by two loaded
    /// slots at once.
    pub open spec fn spec_wf(self) -> bool {
        &&& self.textures@.len() <= MAX_TEXTURES
        &&& forall|i: int| 0 <= i < self.textures@.len() ==> (#[trigger] self.textures@[i]).spec_wf()
        &&& forall|i: int, j: int|
            0 <= i < j < self.textures@.len() && (#[trigger] self.textures@[i]).loaded
                && (#[trigger] self.textures@[j]).loaded ==> self.textures@[i].filename@
                != self.textures@[j].filename@
    }

    pub fn new() -> (m: TextureManager)
        ensures
            m.textures@.len() == 0,
            m.spec_wf(),
    {
        TextureManager { textures: Vec::new() }
    }

    /// Find the handle of a loaded texture by filename.
    fn find(&self, filename: &String) -> (r: Option<usize>)
        ensures
            match r {
                Some(i) => spec_find(self.textures@, filename@) == Some(i as int) && i
                    < self.textures@.len(),
                None => spec_find(self.textures@, filename@) is None,
            },
    {
        let n = self.textures.len();
        let mut i: usize = 0;
        while i < n
            invariant
                0 <= i <= n,
                n == self.textures@.len(),
                spec_find(self.textures@, filename@) == spec_find_from(
                    self.textures@,
                    filename@,
                    i as int,
                ),
            decreases n - i,
        {
            if self.textures[i].loaded && self.textures[i].filename == *filename {
                return Some(i);
            }
            i = i + 1;
        }
        None
    }

    /// Load a texture, deduplicating by filename. A filename already in
    /// the registry returns its existing handle with no upload and no
    /// state change, so loading the same file twice performs exactly one
    /// GPU upload. Otherwise the bytes are decoded and a new slot is
    /// filled; the returned command tells the host what to upload under
    /// the GPU handle `new_id` it supplied.
    pub fn load(&mut self, filename: String, file_bytes: &Vec<u8>, new_id: u32) -> (r: Result<
        (usize, Option<UploadCmd>),
        TextureError,
    >)
        requires
            old(self).spec_wf(),
        ensures
            final(self).spec_wf(),
            match spec_find(old(self).textures@, filename@) {
                Some(i) => {
                    &&& *final(self) == *old(self)
                    &&& r matches Ok(out) && out.0 == i && out.1 is None
                },
                None => {
                    if old(self).textures@.len() >= MAX_TEXTURES {
                        r == Err::<(usize, Option<UploadCmd>), TextureError>(
                            TextureError::RegistryFull,
                        ) && *final(self) == *old(self)
                    } else {
                        match decoded_rgba(file_bytes@) {
                            Some(img) => {
                                &&& r matches Ok(out) && out.0 == old(self).textures@.len() && (
                                out.1 matches Some(cmd) && cmd.id == new_id && cmd.width == img.0
                                    && cmd.height == img.1 && cmd.pixels@ == img.2)
                                &&& final(self).textures@.len() == old(self).textures@.len() + 1
                                &&& final(self).textures@.subrange(
                                    0,
                                    old(self).textures@.len() as int,
                                ) == old(self).textures@
                                &&& ({
                                    let t = final(self).textures@[old(self).textures@.len() as int];
                                    t.id == new_id && t.width == img.0 && t.height == img.1
                                        && t.filename@ == filename@ && t.loaded && t.frames@.len()
                                        == 0 && t.texcoords_buffer@.len() == 0
                                })
                                &&& spec_find(final(self).textures@, filename@) == Some(
                                    old(self).textures@.len() as int,
                                )
                            },
                            None => r == Err::<(usize, Option<UploadCmd>), TextureError>(
                                TextureError::DecodeFailed,
                            ) && *final(self) == *old(self),
                        }
                    }
                },
            },
    {
        if let Some(i) = self.find(&filename) {
            return Ok((i, None));
        }
        if self.textures.len() >= MAX_TEXTURES {
            return Err(TextureError::RegistryFull);
        }
        match decode_rgba(file_bytes) {
            Some((width, height, pixels)) => {
                let ghost old_seq = self.textures@;
                let handle = self.textures.len();
                let t = Texture::new(new_id, width, height, filename);
                proof {
                    lemma_find_push(old_seq, t, t.filename@, 0);
                    lemma_find_none(old_seq, t.filename@, 0);
                }
                self.textures.push(t);
                proof {
                    assert(self.textures@.subrange(0, old_seq.len() as int) =~= old_seq);
                }
                Ok((handle, Some(UploadCmd { id: new_id, width, height, pixels })))
            }
            None => Err(TextureError::DecodeFailed),
        }
    }

    /// Release the GPU memory of the texture loaded under `filename`. On
    /// success the slot stays allocated, so every other handle keeps its
    /// meaning, and the GPU handle to free is handed back to the host.
    pub fn unload(&mut self, filename: &String) -> (r: Option<u32>)
        requires
            old(self).spec_wf(),
        ensures
            final(self).spec_wf(),
            match spec_find(old(self).textures@, filename@) {
                Some(i) => r == Some(old(self).textures@[i].id) && final(self).textures@
                    == old(self).textures@.update(
                    i,
                    Texture { loaded: false, ..old(self).textures@[i] },
                ),
                None => r is None && *final(self) == *old(self),
            },
    {
        match self.find(filename) {
            Some(i) => {
                proof {
                    lemma_find_some(self.textures@, filename@, 0);
                }
                self.unload_at(i)
            }
            None => None,
        }
    }

    /// Release the GPU memory of the texture in slot `index`, returning
    /// the GPU handle to free. `None` if the slot does not exist or was
    /// already released.
    pub fn unload_at(&mut self, index: usize) -> (r: Option<u32>)
        requires
            old(self).spec_wf(),
        ensures
            final(self).spec_wf(),
            if index < old(self).textures@.len() && old(self).textures@[index as int].loaded {
                r == Some(old(self).textures@[index as int].id) && final(self).textures@ == old(
                    self,
                ).textures@.update(
                    index as int,
                    Texture { loaded: false, ..old(self).textures@[index as int] },
                )
            } else {
                r is None && *final(self) == *old(self)
            },
    {
        if index >= self.textures.len() {
            return None;
        }
        if !self.textures[index].loaded {
            return None;
        }
        let id = self.textures[index].id;
        let slot = &mut self.textures[index];
        slot.unload();
        Some(id)
    }
}

} // verus!
