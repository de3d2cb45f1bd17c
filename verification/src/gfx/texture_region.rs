//! Normalized rectangles of a texture.

use crate::gfx::scalar::{ONE_BITS, ZERO_BITS};
use crate::gfx::texture::TextureHandle;
use vstd::prelude::*;

verus! {

/// A rectangle of a texture in normalized coordinates, from `(u, v)` to
/// `(u2, v2)`. Each coordinate is the bit pattern of a scalar; the rectangle
/// from zero to one is the whole texture.
#[derive(Clone, Copy, Debug)]
pub struct TextureRegion {
    texture: TextureHandle,
    u: u32,
    v: u32,
    u2: u32,
    v2: u32,
}

impl TextureRegion {
    pub closed spec fn spec_texture(&self) -> &TextureHandle {
        &self.texture
    }

    pub closed spec fn spec_u(&self) -> u32 {
        self.u
    }

    pub closed spec fn spec_v(&self) -> u32 {
        self.v
    }

    pub closed spec fn spec_u2(&self) -> u32 {
        self.u2
    }

    pub closed spec fn spec_v2(&self) -> u32 {
        self.v2
    }

    /// The region that covers the whole of `texture`.
    pub fn new(texture: TextureHandle) -> (region: TextureRegion)
        ensures
            *region.spec_texture() == texture,
            region.spec_u() == ZERO_BITS,
            region.spec_v() == ZERO_BITS,
            region.spec_u2() == ONE_BITS,
            region.spec_v2() == ONE_BITS,
    {
        TextureRegion { texture, u: ZERO_BITS, v: ZERO_BITS, u2: ONE_BITS, v2: ONE_BITS }
    }

    #[verifier::when_used_as_spec(spec_texture)]
    pub fn get_texture(&self) -> (texture: &TextureHandle)
        ensures
            texture == self.spec_texture(),
    {
        &self.texture
    }

    #[verifier::when_used_as_spec(spec_u)]
    pub fn get_u(&self) -> (u: u32)
        ensures
            u == self.spec_u(),
    {
        self.u
    }

    #[verifier::when_used_as_spec(spec_v)]
    pub fn get_v(&self) -> (v: u32)
        ensures
            v == self.spec_v(),
    {
        self.v
    }

    #[verifier::when_used_as_spec(spec_u2)]
    pub fn get_u2(&self) -> (u2: u32)
        ensures
            u2 == self.spec_u2(),
    {
        self.u2
    }

    #[verifier::when_used_as_spec(spec_v2)]
    pub fn get_v2(&self) -> (v2: u32)
        ensures
            v2 == self.spec_v2(),
    {
        self.v2
    }
}

} // verus!
