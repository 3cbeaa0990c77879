//! Texture sampling modes and the handle under which a renderer registers
//! an uploaded texture. Creating, binding and deleting the actual GPU
//! object is the renderer's business; this crate only carries the handle.

use vstd::prelude::*;

verus! {

/// How sampling behaves outside the unit UV square.
#[derive(Debug, Clone, Copy, PartialEq, Eq, Structural)]
pub enum WrapMode {
    Repeat,
    MirroredRepeat,
    ClampToEdge,
    ClampToBorder,
}

/// How texels are filtered when a texture is minified or magnified.
#[derive(Debug, Clone, Copy, PartialEq, Eq, Structural)]
pub enum FilterMode {
    Nearest,
    Linear,
    NearestMipMapNearest,
    LinearMipMapNearest,
    NearestMipMapLinear,
    LinearMipMapLinear,
}

impl FilterMode {
    /// Whether this filter samples from mipmap levels, so that mipmaps
    /// must be generated for the texture it is used with.
    pub fn is_mipmap(&self) -> (r: bool)
        ensures
            r == (*self == FilterMode::NearestMipMapNearest || *self
                == FilterMode::LinearMipMapNearest || *self == FilterMode::NearestMipMapLinear
                || *self == FilterMode::LinearMipMapLinear),
    {
        *self == FilterMode::NearestMipMapNearest || *self == FilterMode::LinearMipMapNearest
            || *self == FilterMode::NearestMipMapLinear || *self == FilterMode::LinearMipMapLinear
    }
}

/// A GPU texture handle. The renderer that uploaded the texture owns its
/// lifetime; values of this type only name it.
#[derive(Debug)]
pub struct Texture {
    id: u32,
}

impl Texture {
    /// The identifier this handle was created with.
    pub closed spec fn spec_id(&self) -> u32 {
        self.id
    }

    /// Wraps the identifier of an uploaded texture.
    pub fn new(id: u32) -> (r: Texture)
        ensures
            r.spec_id() == id,
    {
        Texture { id }
    }

    pub fn get_id(&self) -> (r: u32)
        ensures
            r == self.spec_id(),
    {
        self.id
    }
}

} // verus!
