use vstd::prelude::*;

verus! {

/// The packed texel encodings known to the codec.
#[derive(Debug, PartialEq, Eq, Clone, Copy, Structural)]
pub enum ImgFormat {
    RGBA16,
    RGBA32,
    IA32,
    IA16,
    IA8,
    IA4,
    I8,
    I4,
    CI8,
    CI4,
    OneBPP,
}

/// Number of variants of `ImgFormat`.
pub const IMG_FORMAT_LENGTH: usize = 11;

/// Position of a format in the declaration order of `ImgFormat`.
pub open spec fn format_index(f: ImgFormat) -> nat {
    match f {
        ImgFormat::RGBA16 => 0,
        ImgFormat::RGBA32 => 1,
        ImgFormat::IA32 => 2,
        ImgFormat::IA16 => 3,
        ImgFormat::IA8 => 4,
        ImgFormat::IA4 => 5,
        ImgFormat::I8 => 6,
        ImgFormat::I4 => 7,
        ImgFormat::CI8 => 8,
        ImgFormat::CI4 => 9,
        ImgFormat::OneBPP => 10,
    }
}

/// The display name of a format.
pub open spec fn format_name(f: ImgFormat) -> Seq<char> {
    match f {
        ImgFormat::RGBA16 => "RGBA16"@,
        ImgFormat::RGBA32 => "RGBA32"@,
        ImgFormat::IA32 => "IA32"@,
        ImgFormat::IA16 => "IA16"@,
        ImgFormat::IA8 => "IA8"@,
        ImgFormat::IA4 => "IA4"@,
        ImgFormat::I8 => "I8"@,
        ImgFormat::I4 => "I4"@,
        ImgFormat::CI8 => "CI8"@,
        ImgFormat::CI4 => "CI4"@,
        ImgFormat::OneBPP => "OneBPP"@,
    }
}

/// Bits that one texel occupies in the packed stream.
pub open spec fn format_bits(f: ImgFormat) -> nat {
    match f {
        ImgFormat::OneBPP => 1,
        ImgFormat::I4 | ImgFormat::IA4 | ImgFormat::CI4 => 4,
        ImgFormat::I8 | ImgFormat::IA8 | ImgFormat::CI8 => 8,
        ImgFormat::IA16 | ImgFormat::RGBA16 => 16,
        ImgFormat::RGBA32 | ImgFormat::IA32 => 32,
    }
}

/// Every format, in declaration order.
pub open spec fn all_formats() -> Seq<ImgFormat> {
    seq![
        ImgFormat::RGBA16,
        ImgFormat::RGBA32,
        ImgFormat::IA32,
        ImgFormat::IA16,
        ImgFormat::IA8,
        ImgFormat::IA4,
        ImgFormat::I8,
        ImgFormat::I4,
        ImgFormat::CI8,
        ImgFormat::CI4,
        ImgFormat::OneBPP,
    ]
}

impl Default for ImgFormat {
    fn default() -> (r: ImgFormat)
        ensures
            r == ImgFormat::RGBA16,
    {
        ImgFormat::RGBA16
    }
}

impl ImgFormat {
    /// Every format, each once, in declaration order.
    pub fn get_all_formats() -> (r: Vec<ImgFormat>)
        ensures
            r@ == all_formats(),
            r@.len() == IMG_FORMAT_LENGTH,
            forall|f: ImgFormat| r@.contains(f),
    {
        let r = vec![
            ImgFormat::RGBA16,
            ImgFormat::RGBA32,
            ImgFormat::IA32,
            ImgFormat::IA16,
            ImgFormat::IA8,
            ImgFormat::IA4,
            ImgFormat::I8,
            ImgFormat::I4,
            ImgFormat::CI8,
            ImgFormat::CI4,
            ImgFormat::OneBPP,
        ];
        assert(r@ =~= all_formats());
        assert forall|f: ImgFormat| r@.contains(f) by {
            assert(r@[format_index(f) as int] == f);
        }
        r
    }

    /// The display name of the format, as its variant is spelled.
    pub fn to_string(&self) -> (r: String)
        ensures
            r@ == format_name(*self),
    {
        match self {
            ImgFormat::RGBA16 => "RGBA16".to_owned(),
            ImgFormat::RGBA32 => "RGBA32".to_owned(),
            ImgFormat::IA32 => "IA32".to_owned(),
            ImgFormat::IA16 => "IA16".to_owned(),
            ImgFormat::IA8 => "IA8".to_owned(),
            ImgFormat::IA4 => "IA4".to_owned(),
            ImgFormat::I8 => "I8".to_owned(),
            ImgFormat::I4 => "I4".to_owned(),
            ImgFormat::CI8 => "CI8".to_owned(),
            ImgFormat::CI4 => "CI4".to_owned(),
            ImgFormat::OneBPP => "OneBPP".to_owned(),
        }
    }

    /// Bits per texel in the packed stream.
    pub fn bits_per_pixel(&self) -> (r: usize)
        ensures
            r == format_bits(*self),
    {
        match self {
            ImgFormat::OneBPP => 1,
            ImgFormat::I4 | ImgFormat::IA4 | ImgFormat::CI4 => 4,
            ImgFormat::I8 | ImgFormat::IA8 | ImgFormat::CI8 => 8,
            ImgFormat::IA16 | ImgFormat::RGBA16 => 16,
            ImgFormat::RGBA32 | ImgFormat::IA32 => 32,
        }
    }
}

impl From<ImgFormat> for usize {
    fn from(value: ImgFormat) -> (r: usize) {
        match value {
            ImgFormat::RGBA16 => 0,
            ImgFormat::RGBA32 => 1,
            ImgFormat::IA32 => 2,
            ImgFormat::IA16 => 3,
            ImgFormat::IA8 => 4,
            ImgFormat::IA4 => 5,
            ImgFormat::I8 => 6,
            ImgFormat::I4 => 7,
            ImgFormat::CI8 => 8,
            ImgFormat::CI4 => 9,
            ImgFormat::OneBPP => 10,
        }
    }
}

impl vstd::std_specs::convert::FromSpecImpl<ImgFormat> for usize {
    open spec fn obeys_from_spec() -> bool {
        true
    }

    open spec fn from_spec(v: ImgFormat) -> usize {
        format_index(v) as usize
    }
}

/// A texel colour: four independent 8-bit channels.
#[derive(Debug, PartialEq, Eq, Clone, Copy, Structural)]
pub struct Color {
    pub r: u8,
    pub g: u8,
    pub b: u8,
    pub a: u8,
}

/// A 5-bit channel widened to 8 bits: the value moves to the top five bits and
/// its own top three bits fill the bottom.
pub open spec fn expand5(v: int) -> int {
    v * 8 + v / 4
}

/// The colour that a 16-bit 5-5-5-1 texel stands for: red in bits 15..11, green
/// in bits 10..6, blue in bits 5..1, alpha in bit 0 (0 or 255).
pub open spec fn rgba16_color(p: u16) -> Color {
    Color {
        r: expand5((p / 2048) as int % 32) as u8,
        g: expand5((p / 64) as int % 32) as u8,
        b: expand5((p / 2) as int % 32) as u8,
        a: if p % 2 == 1 { 255 } else { 0 },
    }
}

/// The colour that a 32-bit texel stands for, bytes in the order R, G, B, A
/// from the most significant down.
pub open spec fn rgba32_color(p: u32) -> Color {
    Color {
        r: (p / 0x100_0000) as u8,
        g: ((p / 0x1_0000) % 256) as u8,
        b: ((p / 0x100) % 256) as u8,
        a: (p % 256) as u8,
    }
}

/// The 16-bit 5-5-5-1 texel of a colour: each colour channel keeps its top five
/// bits, and alpha becomes 1 only when it is fully opaque.
pub open spec fn rgba16_of(c: Color) -> u16 {
    ((c.r / 8) as int * 2048 + (c.g / 8) as int * 64 + (c.b / 8) as int * 2 + (c.a / 255) as int) as u16
}

proof fn lemma_expand5_bits(v: u8)
    requires
        v < 32,
    ensures
        ((v << 3u8) | (v >> 2u8)) as int == expand5(v as int),
{
    assert(((v << 3u8) | (v >> 2u8)) == v * 8 + v / 4) by (bit_vector)
        requires
            v < 32u8,
    ;
}

impl Color {
    /// Fully transparent black.
    pub fn transparent() -> (c: Color)
        ensures
            c == (Color { r: 0, g: 0, b: 0, a: 0 }),
    {
        Color { r: 0, g: 0, b: 0, a: 0 }
    }

    /// Opaque white.
    pub fn white() -> (c: Color)
        ensures
            c == (Color { r: 255, g: 255, b: 255, a: 255 }),
    {
        Color { r: 255, g: 255, b: 255, a: 255 }
    }

    /// Opaque black.
    pub fn black() -> (c: Color)
        ensures
            c == (Color { r: 0, g: 0, b: 0, a: 255 }),
    {
        Color { r: 0, g: 0, b: 0, a: 255 }
    }

    /// A colour from its four channels.
    pub fn new_rgba(r: u8, g: u8, b: u8, a: u8) -> (c: Color)
        ensures
            c == (Color { r, g, b, a }),
    {
        Color { r, g, b, a }
    }

    /// An opaque colour from its three colour channels.
    pub fn new_rgb(r: u8, g: u8, b: u8) -> (c: Color)
        ensures
            c == (Color { r, g, b, a: 255 }),
    {
        Color { r, g, b, a: 0xFF }
    }

    /// The colour of a 32-bit RGBA texel, red in the most significant byte.
    pub fn rgba_from_u32(pixel: u32) -> (c: Color)
        ensures
            c == rgba32_color(pixel),
    {
        let r = ((pixel >> 24) & 0xFF) as u8;
        let g = ((pixel >> 16) & 0xFF) as u8;
        let b = ((pixel >> 8) & 0xFF) as u8;
        let a = (pixel & 0xFF) as u8;
        assert(((pixel >> 24u32) & 0xFFu32) == pixel / 0x100_0000) by (bit_vector);
        assert(((pixel >> 16u32) & 0xFFu32) == (pixel / 0x1_0000) % 256) by (bit_vector);
        assert(((pixel >> 8u32) & 0xFFu32) == (pixel / 0x100) % 256) by (bit_vector);
        assert((pixel & 0xFFu32) == pixel % 256) by (bit_vector);
        Color { r, g, b, a }
    }

    /// The colour of a 16-bit 5-5-5-1 texel; each 5-bit channel is widened to
    /// 8 bits and the alpha bit becomes 0 or 255.
    pub fn from_u16(pixel: u16) -> (c: Color)
        ensures
            c == rgba16_color(pixel),
    {
        let r = ((pixel >> 11) & 0x1F) as u8;
        let g = ((pixel >> 6) & 0x1F) as u8;
        let b = ((pixel >> 1) & 0x1F) as u8;
        let a = (pixel & 0x01) as u8;
        assert(((pixel >> 11u16) & 0x1Fu16) == (pixel / 2048) % 32) by (bit_vector);
        assert(((pixel >> 6u16) & 0x1Fu16) == (pixel / 64) % 32) by (bit_vector);
        assert(((pixel >> 1u16) & 0x1Fu16) == (pixel / 2) % 32) by (bit_vector);
        assert((pixel & 0x01u16) == pixel % 2) by (bit_vector);
        proof {
            lemma_expand5_bits(r);
            lemma_expand5_bits(g);
            lemma_expand5_bits(b);
        }
        let r = (r << 3) | (r >> 2);
        let g = (g << 3) | (g >> 2);
        let b = (b << 3) | (b >> 2);
        let a = 255 * a;

        Color { r, g, b, a }
    }

    /// The 16-bit 5-5-5-1 texel of this colour: the top five bits of each
    /// colour channel, and an alpha bit that is set only for alpha 255.
    pub fn rgba_to_u16(&self) -> (p: u16)
        ensures
            p == rgba16_of(*self),
    {
        let r = (self.r >> 3) as u16;
        let g = (self.g >> 3) as u16;
        let b = (self.b >> 3) as u16;
        let a = (self.a / 255) as u16;
        let (sr, sg, sb) = (self.r, self.g, self.b);
        assert((sr >> 3u8) == sr / 8) by (bit_vector);
        assert((sg >> 3u8) == sg / 8) by (bit_vector);
        assert((sb >> 3u8) == sb / 8) by (bit_vector);
        assert(((r << 11u16) | (g << 6u16) | (b << 1u16) | a) == r * 2048 + g * 64 + b * 2 + a)
            by (bit_vector)
            requires
                r < 32u16,
                g < 32u16,
                b < 32u16,
                a < 2u16,
        ;
        (r << 11) | (g << 6) | (b << 1) | a
    }
}

/// Widening a 5-bit channel to 8 bits and keeping the top five bits again gives
/// the channel back.
pub proof fn lemma_expand5_round_trip(v: int)
    requires
        0 <= v < 32,
    ensures
        0 <= expand5(v) < 256,
        expand5(v) / 8 == v,
{
}

/// A 16-bit 5-5-5-1 texel widened to a colour and packed again is the same
/// texel: the widening loses nothing that the packing keeps.
pub proof fn lemma_rgba16_round_trip(p: u16)
    ensures
        rgba16_of(rgba16_color(p)) == p,
{
    let r = (p / 2048) as int % 32;
    let g = (p / 64) as int % 32;
    let b = (p / 2) as int % 32;
    lemma_expand5_round_trip(r);
    lemma_expand5_round_trip(g);
    lemma_expand5_round_trip(b);
    let c = rgba16_color(p);
    assert(c.r / 8 == r && c.g / 8 == g && c.b / 8 == b);
    assert(c.a / 255 == p % 2);
    assert(p == (p / 2048) * 2048 + ((p / 64) % 32) * 64 + ((p / 2) % 32) * 2 + p % 2) by (bit_vector);
}

} // verus!
