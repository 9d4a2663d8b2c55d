//! The texture table: a reusable-slot registry from handles to texture
//! metadata, plus the upload parameters each texture's flags resolve to.
//!
//! Slot storage is `slab::Slab`, kept behind trusted wrappers whose
//! contracts speak of the table's contents as a `Map` from slot to record.
//! Deleted slots are recycled by the slab, so a stale handle whose slot has
//! been reissued aliases the new texture; the table never invents data for
//! a slot that holds no live texture.

use vstd::prelude::*;

use crate::types::IMAGE_GENERATE_MIPMAPS;
use crate::types::IMAGE_NEAREST;
use crate::types::IMAGE_REPEATX;
use crate::types::IMAGE_REPEATY;
use crate::types::ImageId;
use crate::types::RendererError;
use crate::types::TextureType;
use crate::types::has_flag;
use crate::types::contains_flag;

verus! {

/// Metadata of one live texture.  The GPU image object itself is owned by
/// the adapter that executes the command log; the table records what the
/// renderer's own logic reads.
#[derive(Debug, Clone, Copy, PartialEq, Eq, Structural)]
pub struct Texture {
    pub width: usize,
    pub height: usize,
    pub texture_type: TextureType,
    pub flags: u32,
}

#[verifier::external_type_specification]
#[verifier::external_body]
#[verifier::reject_recursive_types(T)]
pub struct ExSlab<T>(slab::Slab<T>);

/// The entries a slab holds, as a map from slot index to stored record.
pub uninterp spec fn slab_entries(s: slab::Slab<Texture>) -> Map<int, Texture>;

/// Relies on slab::Slab::insert: the value is stored at a key that was
/// vacant, and every existing entry is kept.
#[verifier::external_body]
fn slab_insert(s: &mut slab::Slab<Texture>, t: Texture) -> (key: usize)
    ensures
        !slab_entries(*old(s)).dom().contains(key as int),
        slab_entries(*final(s)) == slab_entries(*old(s)).insert(key as int, t),
{
    s.insert(t)
}

/// Relies on slab::Slab::get: returns the entry stored at the key, if any.
#[verifier::external_body]
fn slab_get(s: &slab::Slab<Texture>, key: usize) -> (r: Option<Texture>)
    ensures
        r == spec_lookup(slab_entries(*s), key as int),
{
    s.get(key).copied()
}

/// Relies on slab::Slab::try_remove: removes and returns the entry stored
/// at the key, if any; every other entry is kept.
#[verifier::external_body]
fn slab_try_remove(s: &mut slab::Slab<Texture>, key: usize) -> (r: Option<Texture>)
    ensures
        r == spec_lookup(slab_entries(*old(s)), key as int),
        slab_entries(*final(s)) == slab_entries(*old(s)).remove(key as int),
{
    s.try_remove(key)
}

/// The contents of a table that holds no texture.
pub open spec fn no_entries() -> Map<int, Texture> {
    Map::empty()
}

/// The record stored at `id`, if the slot holds a live texture.
pub open spec fn spec_lookup(m: Map<int, Texture>, id: int) -> Option<Texture> {
    if m.dom().contains(id) {
        Some(m[id])
    } else {
        None
    }
}

/// The reusable-slot registry mapping handles to texture metadata.
pub struct TextureTable {
    slots: slab::Slab<Texture>,
}

impl TextureTable {
    /// The table's contents: slot index to texture record.
    pub closed spec fn entries(self) -> Map<int, Texture> {
        slab_entries(self.slots)
    }

    pub fn new() -> (t: TextureTable)
        ensures
            t.entries() == no_entries(),
    {
        TextureTable::with_capacity(0)
    }

    /// Relies on slab::Slab::with_capacity: a fresh slab holds no
    /// entries, whatever capacity is reserved.
    #[verifier::external_body]
    fn with_capacity(capacity: usize) -> (t: TextureTable)
        ensures
            t.entries() == no_entries(),
    {
        TextureTable { slots: slab::Slab::with_capacity(capacity) }
    }

    /// Registers a texture and returns its handle, a slot that held no
    /// live texture (deleted slots may be recycled).
    pub fn create(
        &mut self,
        texture_type: TextureType,
        width: usize,
        height: usize,
        flags: u32,
    ) -> (id: ImageId)
        ensures
            !old(self).entries().dom().contains(id as int),
            final(self).entries() == old(self).entries().insert(
                id as int,
                Texture { width, height, texture_type, flags },
            ),
    {
        slab_insert(&mut self.slots, Texture { width, height, texture_type, flags })
    }

    /// The texture at `id`, if the handle is live.
    pub fn get(&self, id: ImageId) -> (r: Option<Texture>)
        ensures
            r == spec_lookup(self.entries(), id as int),
    {
        slab_get(&self.slots, id)
    }

    /// Deletes the texture at `id`; an unknown handle is reported, never a
    /// panic.
    pub fn remove(&mut self, id: ImageId) -> (r: Result<Texture, RendererError>)
        ensures
            final(self).entries() == old(self).entries().remove(id as int),
            r matches Ok(t) ==> spec_lookup(old(self).entries(), id as int) == Some(t),
            r matches Err(e) ==> {
                &&& spec_lookup(old(self).entries(), id as int) is None
                &&& e == RendererError::TextureNotFound(id)
            },
    {
        match slab_try_remove(&mut self.slots, id) {
            Some(t) => Ok(t),
            None => Err(RendererError::TextureNotFound(id)),
        }
    }
}

/// Creating a texture and then reading its size gives the requested size:
/// a fresh registration is immediately visible under the handle it
/// returned.
pub proof fn lemma_create_then_lookup(m: Map<int, Texture>, id: int, t: Texture)
    ensures
        spec_lookup(m.insert(id, t), id) == Some(t),
{
}

/// Deleting a handle makes every later operation on that handle miss the
/// table, until the slot is reissued: lookups after a removal find
/// nothing, so each texture operation reports `TextureNotFound`.
pub proof fn lemma_delete_then_not_found(m: Map<int, Texture>, id: int)
    ensures
        spec_lookup(m.remove(id), id) is None,
{
}

/// How a texture's pixels are handed to the GPU: full color or a single
/// channel.
#[derive(Debug, Clone, Copy, PartialEq, Eq, Structural)]
pub enum PixelFormat {
    Rgba,
    Red,
}

/// A sampling filter choice.
#[derive(Debug, Clone, Copy, PartialEq, Eq, Structural)]
pub enum FilterMode {
    Nearest,
    Linear,
    NearestMipmapNearest,
    LinearMipmapLinear,
}

/// An out-of-range texture coordinate policy.
#[derive(Debug, Clone, Copy, PartialEq, Eq, Structural)]
pub enum WrapMode {
    Repeat,
    ClampToEdge,
}

/// The GPU-side parameters a new texture is created with.
#[derive(Debug, Clone, Copy, PartialEq, Eq, Structural)]
pub struct TextureUploadPlan {
    pub format: PixelFormat,
    pub min_filter: FilterMode,
    pub mag_filter: FilterMode,
    pub wrap_x: WrapMode,
    pub wrap_y: WrapMode,
    pub generate_mipmaps: bool,
}

/// The upload parameters that a texture's channel layout and flags
/// resolve to.
pub open spec fn spec_upload_plan(texture_type: TextureType, flags: u32) -> TextureUploadPlan {
    TextureUploadPlan {
        format: spec_pixel_format(texture_type),
        min_filter: if has_flag(flags, IMAGE_GENERATE_MIPMAPS) {
            if has_flag(flags, IMAGE_NEAREST) {
                FilterMode::NearestMipmapNearest
            } else {
                FilterMode::LinearMipmapLinear
            }
        } else {
            if has_flag(flags, IMAGE_NEAREST) {
                FilterMode::Nearest
            } else {
                FilterMode::Linear
            }
        },
        mag_filter: if has_flag(flags, IMAGE_NEAREST) {
            FilterMode::Nearest
        } else {
            FilterMode::Linear
        },
        wrap_x: if has_flag(flags, IMAGE_REPEATX) {
            WrapMode::Repeat
        } else {
            WrapMode::ClampToEdge
        },
        wrap_y: if has_flag(flags, IMAGE_REPEATY) {
            WrapMode::Repeat
        } else {
            WrapMode::ClampToEdge
        },
        generate_mipmaps: has_flag(flags, IMAGE_GENERATE_MIPMAPS),
    }
}

/// The upload component layout of a channel format.
pub open spec fn spec_pixel_format(texture_type: TextureType) -> PixelFormat {
    match texture_type {
        TextureType::RGBA => PixelFormat::Rgba,
        TextureType::Alpha => PixelFormat::Red,
    }
}

/// Exec counterpart of `spec_pixel_format`.
pub fn pixel_format(texture_type: TextureType) -> (r: PixelFormat)
    ensures
        r == spec_pixel_format(texture_type),
{
    match texture_type {
        TextureType::RGBA => PixelFormat::Rgba,
        TextureType::Alpha => PixelFormat::Red,
    }
}

/// Resolves a texture's channel layout and flags to the filter, wrap and
/// mipmap parameters its GPU image is created with.
pub fn upload_plan(texture_type: TextureType, flags: u32) -> (r: TextureUploadPlan)
    ensures
        r == spec_upload_plan(texture_type, flags),
{
    let min_filter = if contains_flag(flags, IMAGE_GENERATE_MIPMAPS) {
        if contains_flag(flags, IMAGE_NEAREST) {
            FilterMode::NearestMipmapNearest
        } else {
            FilterMode::LinearMipmapLinear
        }
    } else {
        if contains_flag(flags, IMAGE_NEAREST) {
            FilterMode::Nearest
        } else {
            FilterMode::Linear
        }
    };
    let mag_filter = if contains_flag(flags, IMAGE_NEAREST) {
        FilterMode::Nearest
    } else {
        FilterMode::Linear
    };
    TextureUploadPlan {
        format: pixel_format(texture_type),
        min_filter,
        mag_filter,
        wrap_x: if contains_flag(flags, IMAGE_REPEATX) {
            WrapMode::Repeat
        } else {
            WrapMode::ClampToEdge
        },
        wrap_y: if contains_flag(flags, IMAGE_REPEATY) {
            WrapMode::Repeat
        } else {
            WrapMode::ClampToEdge
        },
        generate_mipmaps: contains_flag(flags, IMAGE_GENERATE_MIPMAPS),
    }
}

} // verus!
