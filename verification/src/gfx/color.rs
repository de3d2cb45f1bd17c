//! RGBA colors and their packed four-byte form.

use vstd::prelude::*;

verus! {

/// The intensity of a fully lit channel.
pub const CHANNEL_MAX: u32 = 255;

/// An RGBA color. Each channel is an intensity in 255ths, so 255 is full
/// intensity. Values above 255 are representable and spill into the
/// neighbouring channels when the color is packed.
#[derive(Clone, Copy, Debug, PartialEq, Eq, Structural)]
pub struct Color {
    pub r: u32,
    pub g: u32,
    pub b: u32,
    pub a: u32,
}

impl Color {
    /// Whether every channel fits in one byte.
    pub open spec fn in_range(self) -> bool {
        &&& self.r <= CHANNEL_MAX
        &&& self.g <= CHANNEL_MAX
        &&& self.b <= CHANNEL_MAX
        &&& self.a <= CHANNEL_MAX
    }

    /// The packed word of the color: red in the highest byte, then green,
    /// blue, and alpha in the lowest.
    pub open spec fn packed(self) -> u32 {
        (self.r << 24) | (self.g << 16) | (self.b << 8) | self.a
    }

    /// The color whose channels are the four bytes of `bits`, highest byte
    /// first.
    pub open spec fn unpacked(bits: u32) -> Color {
        Color {
            r: (bits & 0xFF00_0000) >> 24,
            g: (bits & 0x00FF_0000) >> 16,
            b: (bits & 0x0000_FF00) >> 8,
            a: bits & 0x0000_00FF,
        }
    }

    pub fn from_rgba(r: u32, g: u32, b: u32, a: u32) -> (color: Color)
        ensures
            color == (Color { r, g, b, a }),
    {
        Color { r, g, b, a }
    }

    /// An opaque color.
    pub fn from_rgb(r: u32, g: u32, b: u32) -> (color: Color)
        ensures
            color == (Color { r, g, b, a: CHANNEL_MAX }),
    {
        Color { r, g, b, a: CHANNEL_MAX }
    }

    /// Opaque white, the tint that leaves a texture's own colors unchanged.
    pub fn white() -> (color: Color)
        ensures
            color == (Color { r: CHANNEL_MAX, g: CHANNEL_MAX, b: CHANNEL_MAX, a: CHANNEL_MAX }),
            color.packed() == 0xFFFF_FFFFu32,
    {
        assert((255u32 << 24) | (255u32 << 16) | (255u32 << 8) | 255u32 == 0xFFFF_FFFFu32)
            by (bit_vector);
        Color { r: CHANNEL_MAX, g: CHANNEL_MAX, b: CHANNEL_MAX, a: CHANNEL_MAX }
    }

    /// Splits a packed word into its four channels.
    pub fn from_float_bits(bits: u32) -> (color: Color)
        ensures
            color == Color::unpacked(bits),
            color.in_range(),
            color.packed() == bits,
    {
        proof {
            lemma_pack_unpacked(bits);
        }
        Color {
            r: (bits & 0xFF00_0000) >> 24,
            g: (bits & 0x00FF_0000) >> 16,
            b: (bits & 0x0000_FF00) >> 8,
            a: bits & 0x0000_00FF,
        }
    }

    /// Packs the color into the four bytes that a vertex carries.
    pub fn to_rgba8(self) -> (bits: u32)
        ensures
            bits == self.packed(),
            self.in_range() ==> bits == self.r * 0x100_0000 + self.g * 0x1_0000 + self.b * 0x100
                + self.a,
    {
        proof {
            if self.in_range() {
                lemma_packed_in_range(self);
            }
        }
        (self.r << 24) | (self.g << 16) | (self.b << 8) | self.a
    }
}

/// Unpacking a word and packing the result gives the word back, and the
/// unpacked channels each fit in one byte.
pub proof fn lemma_pack_unpacked(bits: u32)
    ensures
        Color::unpacked(bits).in_range(),
        Color::unpacked(bits).packed() == bits,
{
    assert((bits & 0xFF00_0000) >> 24 <= 255 && (bits & 0x00FF_0000) >> 16 <= 255 && (bits
        & 0x0000_FF00) >> 8 <= 255 && bits & 0x0000_00FF <= 255) by (bit_vector);
    assert(((((bits & 0xFF00_0000) >> 24) << 24) | (((bits & 0x00FF_0000) >> 16) << 16) | (((bits
        & 0x0000_FF00) >> 8) << 8) | (bits & 0x0000_00FF)) == bits) by (bit_vector);
}

/// Packing a color whose channels each fit in one byte and unpacking the
/// word gives the color back.
pub proof fn lemma_unpack_packed(color: Color)
    requires
        color.in_range(),
    ensures
        Color::unpacked(color.packed()) == color,
{
    let Color { r, g, b, a } = color;
    let bits = (r << 24) | (g << 16) | (b << 8) | a;
    assert((bits & 0xFF00_0000) >> 24 == r && (bits & 0x00FF_0000) >> 16 == g && (bits
        & 0x0000_FF00) >> 8 == b && bits & 0x0000_00FF == a) by (bit_vector)
        requires
            bits == (r << 24) | (g << 16) | (b << 8) | a,
            r <= 255,
            g <= 255,
            b <= 255,
            a <= 255,
    ;
}

/// The packed word of a color whose channels each fit in one byte holds the
/// channels as its four bytes.
pub proof fn lemma_packed_in_range(color: Color)
    requires
        color.in_range(),
    ensures
        color.packed() == color.r * 0x100_0000 + color.g * 0x1_0000 + color.b * 0x100 + color.a,
{
    let Color { r, g, b, a } = color;
    assert(((r << 24) | (g << 16) | (b << 8) | a) == r * 0x100_0000 + g * 0x1_0000 + b * 0x100 + a)
        by (bit_vector)
        requires
            r <= 255,
            g <= 255,
            b <= 255,
            a <= 255,
    ;
}

} // verus!
