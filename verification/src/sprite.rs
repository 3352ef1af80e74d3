//! Per-instance sprite records and the fixed-capacity sprite list.
//!
//! A record's GPU form is 16 bytes: position as two 32-bit floats at
//! offset 0, the frame index as a 32-bit integer at offset 8, and the flip
//! flag as a 32-bit integer at offset 12, all read per instance. The byte
//! layout is a wire format shared with the vertex shader, so the stride
//! and offsets here must match the shader's attribute declarations
//! exactly. The library computes every byte offset for partial buffer
//! updates; the host performs the one lossy step, subpixels to floats,
//! when serializing.

use vstd::prelude::*;

verus! {

/// Byte stride of one GPU instance record.
pub const SPRITE_RECORD_BYTES: usize = 16;

/// Byte offset of the position field (two 32-bit floats).
pub const SPRITE_POSITION_OFFSET: usize = 0;

/// Byte offset of the frame index field (one 32-bit integer).
pub const SPRITE_FRAME_OFFSET: usize = 8;

/// Byte offset of the flip flag field (one 32-bit integer).
pub const SPRITE_FLIPPED_OFFSET: usize = 12;

/// Frame index meaning "draw the whole texture, ignore the frame atlas".
pub const FULL_TEXTURE_FRAME: i32 = -1;

/// One sprite instance: a subpixel position, a frame index
/// (`FULL_TEXTURE_FRAME` for the whole texture) and a horizontal flip.
#[derive(Clone, Copy, Debug, PartialEq, Eq, Structural)]
pub struct SpriteData {
    pub x: i64,
    pub y: i64,
    pub frame: i32,
    pub flipped: bool,
}

/// Byte offset of instance `index` inside an instance buffer, for partial
/// updates of single records.
pub fn instance_byte_offset(index: usize) -> (off: usize)
    requires
        index * SPRITE_RECORD_BYTES <= usize::MAX,
    ensures
        off == index * SPRITE_RECORD_BYTES,
{
    index * SPRITE_RECORD_BYTES
}

/// A handle to one drawn sprite: the instance buffer it lives in and its
/// slot there.
#[derive(Clone, Copy, Debug, PartialEq, Eq, Structural)]
pub struct Sprite {
    pub vbo: u32,
    pub buffer_index: usize,
}

/// A fixed-capacity list of sprites mirrored into one vertex array.
/// Freed slots are recycled before the list grows.
#[derive(Debug)]
pub struct DisplayList {
    /// GPU vertex-array handle owned by the driver.
    pub vao: u32,
    pub sprites: Vec<Sprite>,
    pub unused_indices: Vec<usize>,
    pub capacity: usize,
}

impl DisplayList {
    /// Recycled indices always point at live slots.
    pub open spec fn spec_wf(self) -> bool {
        &&& self.sprites@.len() <= self.capacity
        &&& forall|i: int|
            0 <= i < self.unused_indices@.len() ==> (#[trigger] self.unused_indices@[i])
                < self.sprites@.len()
    }

    pub fn new(vao: u32, capacity: usize) -> (d: DisplayList)
        ensures
            d.vao == vao,
            d.capacity == capacity,
            d.sprites@.len() == 0,
            d.unused_indices@.len() == 0,
            d.spec_wf(),
    {
        DisplayList { vao, sprites: Vec::new(), unused_indices: Vec::new(), capacity }
    }

    /// Add a sprite, reusing a freed slot if one exists, else appending.
    /// Reports `false`, changing nothing, when the list is out of room.
    pub fn add_sprite(&mut self, sprite: Sprite) -> (ok: bool)
        requires
            old(self).spec_wf(),
        ensures
            final(self).spec_wf(),
            final(self).vao == old(self).vao && final(self).capacity == old(self).capacity,
            if old(self).sprites@.len() >= old(self).capacity {
                !ok && *final(self) == *old(self)
            } else if old(self).unused_indices@.len() > 0 {
                &&& ok
                &&& final(self).sprites@ == old(self).sprites@.update(
                    old(self).unused_indices@.last() as int,
                    sprite,
                )
                &&& final(self).unused_indices@ == old(self).unused_indices@.drop_last()
            } else {
                &&& ok
                &&& final(self).sprites@ == old(self).sprites@.push(sprite)
                &&& final(self).unused_indices@ == old(self).unused_indices@
            },
    {
        if self.sprites.len() >= self.capacity {
            return false;
        }
        match self.unused_indices.pop() {
            Some(index) => {
                self.sprites[index] = sprite;
            }
            None => {
                self.sprites.push(sprite);
            }
        }
        true
    }

    /// Add a sprite and say which slot it took: the recycled slot if one
    /// was free, else the fresh one at the end. `None` when out of room.
    pub fn insert_sprite(&mut self, sprite: Sprite) -> (r: Option<usize>)
        requires
            old(self).spec_wf(),
        ensures
            final(self).spec_wf(),
            final(self).vao == old(self).vao && final(self).capacity == old(self).capacity,
            if old(self).sprites@.len() >= old(self).capacity {
                r is None && *final(self) == *old(self)
            } else if old(self).unused_indices@.len() > 0 {
                &&& r == Some(old(self).unused_indices@.last() as usize)
                &&& final(self).sprites@ == old(self).sprites@.update(
                    old(self).unused_indices@.last() as int,
                    sprite,
                )
                &&& final(self).unused_indices@ == old(self).unused_indices@.drop_last()
            } else {
                &&& r == Some(old(self).sprites@.len() as usize)
                &&& final(self).sprites@ == old(self).sprites@.push(sprite)
                &&& final(self).unused_indices@ == old(self).unused_indices@
            },
    {
        if self.sprites.len() >= self.capacity {
            return None;
        }
        match self.unused_indices.pop() {
            Some(index) => {
                self.sprites[index] = sprite;
                Some(index)
            }
            None => {
                let index = self.sprites.len();
                self.sprites.push(sprite);
                Some(index)
            }
        }
    }
}

} // verus!
