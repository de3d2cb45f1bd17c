//! Descriptors of device textures.

use vstd::arithmetic::logarithm::{lemma_log0, lemma_log_nonnegative, lemma_log_s, log};
use vstd::arithmetic::power2::{
    lemma2_to64, lemma_pow2_strictly_increases, lemma_pow2_unfold, pow2,
};
use vstd::prelude::*;
use vstd::std_specs::cmp::PartialEqSpecImpl;

verus! {

/// The longer of the two sides of an image.
pub open spec fn longest_side(width: u32, height: u32) -> u32 {
    if width >= height {
        width
    } else {
        height
    }
}

/// The length of the mip chain of a `width` by `height` image: one more than
/// the integer base-2 logarithm of its longest side. An image without any
/// pixels has the single base level.
pub open spec fn mip_level_count(width: u32, height: u32) -> int {
    log(2, longest_side(width, height) as int) + 1
}

/// The mip chain of an image with at least one pixel has `levels` entries
/// exactly when its longest side lies in `[2^(levels-1), 2^levels)`.
pub proof fn lemma_mip_level_count_brackets_longest_side(width: u32, height: u32)
    requires
        longest_side(width, height) > 0,
    ensures
        1 <= mip_level_count(width, height) <= 32,
        pow2((mip_level_count(width, height) - 1) as nat) <= longest_side(width, height),
        (longest_side(width, height) as int) < pow2(mip_level_count(width, height) as nat),
{
    let side = longest_side(width, height) as int;
    lemma_log_brackets(side);
    lemma_log_nonnegative(2, side);
    lemma_log_of_u32(longest_side(width, height));
}

proof fn lemma_log_brackets(n: int)
    requires
        n >= 1,
    ensures
        log(2, n) >= 0,
        pow2(log(2, n) as nat) <= n < pow2((log(2, n) + 1) as nat),
    decreases n,
{
    lemma_log_nonnegative(2, n);
    if n < 2 {
        lemma_log0(2, n);
        lemma2_to64();
    } else {
        lemma_log_s(2, n);
        lemma_log_brackets(n / 2);
        let k = log(2, n / 2);
        assert(log(2, n) == k + 1);
        lemma_pow2_unfold((k + 1) as nat);
        lemma_pow2_unfold((k + 2) as nat);
    }
}

proof fn lemma_log_of_u32(n: u32)
    ensures
        0 <= log(2, n as int) <= 31,
{
    lemma_log_nonnegative(2, n as int);
    if n >= 1 {
        lemma_log_brackets(n as int);
        let k = log(2, n as int);
        lemma2_to64();
        if k > 32 {
            lemma_pow2_strictly_increases(32, k as nat);
        }
    } else {
        lemma_log0(2, 0);
    }
}

/// A copyable name of a texture: the handle of the device image object and
/// the size of the image in pixels, none of which changes while the texture
/// lives. Regions, sprites and batches hold a texture by this name, so any
/// number of them can show one texture. Two names are the same when they
/// name the same device object.
#[derive(Clone, Copy, Debug)]
pub struct TextureHandle {
    pub handle: u32,
    pub width: u32,
    pub height: u32,
}

impl PartialEq for TextureHandle {
    fn eq(&self, other: &TextureHandle) -> (equal: bool) {
        self.handle == other.handle
    }
}

impl PartialEqSpecImpl for TextureHandle {
    open spec fn obeys_eq_spec() -> bool {
        true
    }

    open spec fn eq_spec(&self, other: &TextureHandle) -> bool {
        self.handle == other.handle
    }
}

impl TextureHandle {
    pub open spec fn spec_handle(&self) -> u32 {
        self.handle
    }

    pub open spec fn spec_width(&self) -> u32 {
        self.width
    }

    pub open spec fn spec_height(&self) -> u32 {
        self.height
    }

    #[verifier::when_used_as_spec(spec_handle)]
    pub fn get_handle(&self) -> (handle: u32)
        ensures
            handle == self.spec_handle(),
    {
        self.handle
    }

    #[verifier::when_used_as_spec(spec_width)]
    pub fn get_width(&self) -> (width: u32)
        ensures
            width == self.spec_width(),
    {
        self.width
    }

    #[verifier::when_used_as_spec(spec_height)]
    pub fn get_height(&self) -> (height: u32)
        ensures
            height == self.spec_height(),
    {
        self.height
    }
}

/// A device image object: its handle, its size in pixels and the length of
/// its mip chain. The record has one owner and cannot be copied, so the
/// length of the mip chain is written down in one place only. Whoever else
/// needs the texture holds its `TextureHandle`. Two textures are the same
/// texture when they name the same device object.
#[derive(Debug)]
pub struct Texture {
    handle: u32,
    width: u32,
    height: u32,
    depth: u32,
    mip_levels: u32,
}

impl PartialEq for Texture {
    fn eq(&self, other: &Texture) -> (equal: bool) {
        self.handle == other.handle
    }
}

impl PartialEqSpecImpl for Texture {
    open spec fn obeys_eq_spec() -> bool {
        true
    }

    open spec fn eq_spec(&self, other: &Texture) -> bool {
        self.spec_handle() == other.spec_handle()
    }
}

impl Texture {
    pub closed spec fn spec_handle(&self) -> u32 {
        self.handle
    }

    pub closed spec fn spec_width(&self) -> u32 {
        self.width
    }

    pub closed spec fn spec_height(&self) -> u32 {
        self.height
    }

    pub closed spec fn spec_depth(&self) -> u32 {
        self.depth
    }

    pub closed spec fn spec_mip_levels(&self) -> u32 {
        self.mip_levels
    }

    /// Describes the two-dimensional image of `width` by `height` pixels
    /// that was uploaded to the device object `handle`. The device reports
    /// a failed creation as handle 0, and then there is no texture. A new
    /// texture is one layer deep and has only its base mip level.
    pub fn from_pixels(handle: u32, width: u32, height: u32) -> (texture: Option<Texture>)
        ensures
            handle == 0 <==> texture is None,
            texture matches Some(t) ==> {
                &&& t.spec_handle() == handle
                &&& t.spec_width() == width
                &&& t.spec_height() == height
                &&& t.spec_depth() == 1
                &&& t.spec_mip_levels() == 1
            },
    {
        if handle == 0 {
            None
        } else {
            Some(Texture { handle, width, height, depth: 1, mip_levels: 1 })
        }
    }

    /// The name under which regions, sprites and batches hold this texture.
    pub open spec fn spec_share(&self) -> TextureHandle {
        TextureHandle {
            handle: self.spec_handle(),
            width: self.spec_width(),
            height: self.spec_height(),
        }
    }

    /// The name under which regions, sprites and batches hold this texture.
    #[verifier::when_used_as_spec(spec_share)]
    pub fn share(&self) -> (name: TextureHandle)
        ensures
            name == self.spec_share(),
    {
        TextureHandle { handle: self.handle, width: self.width, height: self.height }
    }

    /// Records the full mip chain that the device generates for this
    /// texture and returns its length.
    pub fn generate_mipmaps(&mut self) -> (levels: u32)
        ensures
            levels == mip_level_count(old(self).spec_width(), old(self).spec_height()),
            final(self).spec_mip_levels() == levels,
            final(self).spec_handle() == old(self).spec_handle(),
            final(self).spec_width() == old(self).spec_width(),
            final(self).spec_height() == old(self).spec_height(),
            final(self).spec_depth() == old(self).spec_depth(),
    {
        let longest: u32 = if self.width >= self.height {
            self.width
        } else {
            self.height
        };
        let mut rest: u32 = longest;
        let mut levels: u32 = 1;
        proof {
            lemma_log_of_u32(longest);
        }
        while rest >= 2
            invariant
                1 <= levels,
                levels + log(2, rest as int) == 1 + log(2, longest as int),
                0 <= log(2, longest as int) <= 31,
            decreases rest,
        {
            proof {
                lemma_log_s(2, rest as int);
                lemma_log_nonnegative(2, (rest / 2) as int);
            }
            rest = rest / 2;
            levels = levels + 1;
        }
        proof {
            lemma_log0(2, rest as int);
        }
        self.mip_levels = levels;
        levels
    }

    #[verifier::when_used_as_spec(spec_handle)]
    pub fn get_handle(&self) -> (handle: u32)
        ensures
            handle == self.spec_handle(),
    {
        self.handle
    }

    #[verifier::when_used_as_spec(spec_width)]
    pub fn get_width(&self) -> (width: u32)
        ensures
            width == self.spec_width(),
    {
        self.width
    }

    #[verifier::when_used_as_spec(spec_height)]
    pub fn get_height(&self) -> (height: u32)
        ensures
            height == self.spec_height(),
    {
        self.height
    }

    #[verifier::when_used_as_spec(spec_depth)]
    pub fn get_depth(&self) -> (depth: u32)
        ensures
            depth == self.spec_depth(),
    {
        self.depth
    }

    #[verifier::when_used_as_spec(spec_mip_levels)]
    pub fn get_mip_levels(&self) -> (levels: u32)
        ensures
            levels == self.spec_mip_levels(),
    {
        self.mip_levels
    }
}

} // verus!
