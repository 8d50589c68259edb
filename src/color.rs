use vstd::prelude::*;

verus! {

/// An RGB colour with one byte per channel.
#[derive(Clone, Copy, Debug, PartialEq, Eq, Structural)]
pub struct Color {
    pub r: u8,
    pub g: u8,
    pub b: u8,
}

/// The channel value that an integer intensity saturates to.
pub open spec fn clamp_channel(value: int) -> u8 {
    if value < 0 {
        0
    } else if value > 255 {
        255
    } else {
        value as u8
    }
}

/// Channel-wise sum of two colours, each channel saturating at 255.
pub open spec fn spec_add(a: Color, b: Color) -> Color {
    Color {
        r: clamp_channel(a.r + b.r),
        g: clamp_channel(a.g + b.g),
        b: clamp_channel(a.b + b.b),
    }
}

/// The colour packed in the low 24 bits of `hex` as 0xRRGGBB.
pub open spec fn spec_from_hex(hex: u32) -> Color {
    Color {
        r: ((hex as int / 0x10000) % 0x100) as u8,
        g: ((hex as int / 0x100) % 0x100) as u8,
        b: (hex as int % 0x100) as u8,
    }
}

/// The colour packed as 0xRRGGBB.
pub open spec fn spec_to_hex(c: Color) -> u32 {
    (c.r as int * 0x10000 + c.g as int * 0x100 + c.b as int) as u32
}

fn clamp_to_channel(value: i32) -> (c: u8)
    ensures
        c == clamp_channel(value as int),
{
    if value < 0 {
        0
    } else if value > 255 {
        255
    } else {
        value as u8
    }
}

fn saturating_channel_sum(a: u8, b: u8) -> (c: u8)
    ensures
        c == clamp_channel(a + b),
{
    if a as u16 + b as u16 > 255 {
        255
    } else {
        a + b
    }
}

impl Color {
    /// A colour from integer channels; each one is clamped to `0..=255`.
    pub fn new(r: i32, g: i32, b: i32) -> (c: Color)
        ensures
            c.r == clamp_channel(r as int),
            c.g == clamp_channel(g as int),
            c.b == clamp_channel(b as int),
    {
        Color { r: clamp_to_channel(r), g: clamp_to_channel(g), b: clamp_to_channel(b) }
    }

    /// Pure black.
    pub fn black() -> (c: Color)
        ensures
            c == (Color { r: 0, g: 0, b: 0 }),
    {
        Color { r: 0, g: 0, b: 0 }
    }

    /// A colour from a packed 0xRRGGBB value; bits above the low 24 are ignored.
    pub fn from_hex(hex: u32) -> (c: Color)
        ensures
            c == spec_from_hex(hex),
    {
        Color { r: ((hex / 0x10000) % 0x100) as u8, g: ((hex / 0x100) % 0x100) as u8, b: (hex % 0x100) as u8 }
    }

    /// This colour packed as 0xRRGGBB, the pixel format of the frame buffer.
    pub fn to_hex(&self) -> (hex: u32)
        ensures
            hex == spec_to_hex(*self),
            hex < 0x1000000,
        no_unwind
    {
        self.r as u32 * 0x10000 + self.g as u32 * 0x100 + self.b as u32
    }

    /// Channel-wise sum; a channel that would pass 255 stays at 255.
    pub fn add(self, other: Color) -> (c: Color)
        ensures
            c == spec_add(self, other),
    {
        Color {
            r: saturating_channel_sum(self.r, other.r),
            g: saturating_channel_sum(self.g, other.g),
            b: saturating_channel_sum(self.b, other.b),
        }
    }
}

/// Adding light never darkens a channel and never wraps around: each channel of
/// the sum is at least that of either operand, and is 255 exactly when the two
/// channels together reach 255 or more.
pub proof fn lemma_add_saturates(a: Color, b: Color)
    ensures
        spec_add(a, b).r >= a.r && spec_add(a, b).r >= b.r,
        spec_add(a, b).g >= a.g && spec_add(a, b).g >= b.g,
        spec_add(a, b).b >= a.b && spec_add(a, b).b >= b.b,
        (spec_add(a, b).r == 255) == (a.r + b.r >= 255),
        (spec_add(a, b).g == 255) == (a.g + b.g >= 255),
        (spec_add(a, b).b == 255) == (a.b + b.b >= 255),
{
}

/// Packing a colour as 0xRRGGBB and reading it back gives the same colour.
pub proof fn lemma_hex_round_trip(c: Color)
    ensures
        spec_from_hex(spec_to_hex(c)) == c,
{
}

} // verus!
