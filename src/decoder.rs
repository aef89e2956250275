use vstd::prelude::*;
use byteorder::{BigEndian, ByteOrder};
use vstd::arithmetic::div_mod::lemma_fundamental_div_mod;
use vstd::slice::slice_subrange;
use crate::textures::{format_bits, rgba16_color, rgba32_color, Color, ImgFormat};

verus! {

/// Why a texture could not be decoded.
#[derive(Debug, PartialEq, Eq, Clone, Copy, Structural)]
pub enum DecodeFault {
    /// A colour-indexed format was asked for, and no palette is known to resolve it.
    UnresolvedPaletteFormat,
    /// A format that the codec has no unpacking rule for.
    UnsupportedFormat,
}

/// A decoded texture: `width * height` texels, row by row from the top, each as
/// four bytes R, G, B, A.
pub struct DecodedImage {
    pub width: usize,
    pub height: usize,
    pub pixels: Vec<u8>,
}

/// A packed texture as read from its source: the bytes need not cover the whole
/// image, and may run past its end.
pub struct ImageData {
    pub format: ImgFormat,
    pub width: usize,
    pub height: usize,
    pub data: Vec<u8>,
}

/// Bytes that one row of `w` texels takes; a row always starts on a byte.
pub open spec fn row_bytes(f: ImgFormat, w: nat) -> nat {
    (w * format_bits(f) + 7) / 8
}

/// Offset of the byte where texel (x, y) starts (for formats narrower than a
/// byte, the byte that holds it).
pub open spec fn texel_offset(f: ImgFormat, w: nat, x: nat, y: nat) -> nat {
    y * row_bytes(f, w) + x * format_bits(f) / 8
}

/// Bytes from the texel's offset that must be present to decode it.
pub open spec fn texel_len(f: ImgFormat) -> nat {
    if format_bits(f) < 8 {
        1
    } else {
        format_bits(f) / 8
    }
}

/// The formats whose texels the codec can turn into colours.
pub open spec fn is_supported(f: ImgFormat) -> bool {
    !(f is CI4 || f is CI8 || f is IA32)
}

/// A grey colour: the intensity in all three colour channels.
pub open spec fn gray(i: int, a: int) -> Color {
    Color { r: i as u8, g: i as u8, b: i as u8, a: a as u8 }
}

/// Transparent black, for texels whose bytes are missing.
pub open spec fn zero_color() -> Color {
    Color { r: 0, g: 0, b: 0, a: 0 }
}

/// A 3-bit intensity widened to 8 bits by repeating its bits downwards.
pub open spec fn expand3(v: int) -> int {
    v * 32 + v * 4 + v / 2
}

/// The 4-bit half of `b` that holds texel column `x`: the high half for even
/// columns, the low half for odd ones.
pub open spec fn nibble(b: u8, x: nat) -> int {
    if x % 2 == 0 {
        b as int / 16
    } else {
        b as int % 16
    }
}

/// Whether the bit of `b` for texel column `x` is set, the first column in the
/// most significant bit.
pub open spec fn msb_bit(b: u8, x: nat) -> bool {
    (b >> ((7 - x % 8) as u8)) & 1u8 == 1u8
}

/// The colour of the texel in column `x` whose bytes start at `o` in `data`.
pub open spec fn texel_at(data: Seq<u8>, f: ImgFormat, o: int, x: nat) -> Color {
    let b0 = data[o];
    match f {
        ImgFormat::OneBPP => if msb_bit(b0, x) {
            gray(255, 255)
        } else {
            gray(0, 255)
        },
        ImgFormat::I4 => gray(nibble(b0, x) * 16, 255),
        ImgFormat::IA4 => gray(expand3(nibble(b0, x) / 2), (nibble(b0, x) % 2) * 255),
        ImgFormat::I8 => gray(b0 as int, 255),
        ImgFormat::IA8 => gray((b0 as int / 16) * 16, (b0 as int % 16) * 16),
        ImgFormat::IA16 => gray(b0 as int, data[o + 1] as int),
        ImgFormat::RGBA16 => rgba16_color((b0 as int * 0x100 + data[o + 1] as int) as u16),
        ImgFormat::RGBA32 => rgba32_color(
            (b0 as int * 0x100_0000 + data[o + 1] as int * 0x1_0000 + data[o + 2] as int * 0x100
                + data[o + 3] as int) as u32,
        ),
        _ => zero_color(),
    }
}

/// The colour of texel (x, y) of a `w`-wide image packed in `data`; transparent
/// black where the bytes run out.
pub open spec fn texel(data: Seq<u8>, f: ImgFormat, w: nat, x: nat, y: nat) -> Color {
    let o = texel_offset(f, w, x, y);
    if o + texel_len(f) <= data.len() {
        texel_at(data, f, o as int, x)
    } else {
        zero_color()
    }
}

/// Channel `k` of a colour, in the order R, G, B, A.
pub open spec fn channel(c: Color, k: int) -> u8 {
    if k == 0 {
        c.r
    } else if k == 1 {
        c.g
    } else if k == 2 {
        c.b
    } else {
        c.a
    }
}

/// The RGBA8 bytes of a `w` by `h` image packed in `data`, row by row.
pub open spec fn decoded_pixels(data: Seq<u8>, f: ImgFormat, w: nat, h: nat) -> Seq<u8> {
    Seq::new(
        w * h * 4,
        |k: int| channel(texel(data, f, w, ((k / 4) % (w as int)) as nat, ((k / 4) / (w as int)) as nat), k % 4),
    )
}

/// What decoding gives: the RGBA8 bytes, or the fault of a format that cannot be
/// decoded.
pub open spec fn decode_result(data: Seq<u8>, f: ImgFormat, w: nat, h: nat) -> Result<Seq<u8>, DecodeFault> {
    if f is CI4 || f is CI8 {
        Err(DecodeFault::UnresolvedPaletteFormat)
    } else if f is IA32 {
        Err(DecodeFault::UnsupportedFormat)
    } else {
        Ok(decoded_pixels(data, f, w, h))
    }
}

/// Whether `r` is the outcome that `decode_result` describes for an image of
/// `w` by `h` texels.
pub open spec fn decoded_as(r: Result<DecodedImage, DecodeFault>, expected: Result<Seq<u8>, DecodeFault>, w: usize, h: usize) -> bool {
    match expected {
        Ok(px) => r matches Ok(img) && img.pixels@ == px && img.width == w && img.height == h,
        Err(e) => r == Err::<DecodedImage, DecodeFault>(e),
    }
}

/// Relies on byteorder's `BigEndian::read_u16`: the first two bytes, most
/// significant first.
#[verifier::external_body]
fn read_be_u16(buf: &[u8]) -> (r: u16)
    requires
        buf@.len() >= 2,
    ensures
        r as int == buf@[0] as int * 0x100 + buf@[1] as int,
{
    BigEndian::read_u16(buf)
}

/// Relies on byteorder's `BigEndian::read_u32`: the first four bytes, most
/// significant first.
#[verifier::external_body]
fn read_be_u32(buf: &[u8]) -> (r: u32)
    requires
        buf@.len() >= 4,
    ensures
        r as int == buf@[0] as int * 0x100_0000 + buf@[1] as int * 0x1_0000 + buf@[2] as int * 0x100
            + buf@[3] as int,
{
    BigEndian::read_u32(buf)
}

/// Bytes that a row of `w` texels of format `f` takes.
fn row_stride(f: ImgFormat, w: usize) -> (r: usize)
    requires
        w * 4 <= usize::MAX,
    ensures
        r == row_bytes(f, w as nat),
        w > 0 ==> r <= w * 4,
{
    match f {
        ImgFormat::OneBPP => (w + 7) / 8,
        ImgFormat::I4 | ImgFormat::IA4 | ImgFormat::CI4 => (w + 1) / 2,
        ImgFormat::I8 | ImgFormat::IA8 | ImgFormat::CI8 => w,
        ImgFormat::IA16 | ImgFormat::RGBA16 => w * 2,
        ImgFormat::RGBA32 | ImgFormat::IA32 => w * 4,
    }
}

/// Offset of texel column `x` from the start of its row.
fn column_offset(f: ImgFormat, x: usize) -> (r: usize)
    requires
        x * 4 <= usize::MAX,
    ensures
        r == x * format_bits(f) / 8,
{
    match f {
        ImgFormat::OneBPP => x / 8,
        ImgFormat::I4 | ImgFormat::IA4 | ImgFormat::CI4 => x / 2,
        ImgFormat::I8 | ImgFormat::IA8 | ImgFormat::CI8 => x,
        ImgFormat::IA16 | ImgFormat::RGBA16 => x * 2,
        ImgFormat::RGBA32 | ImgFormat::IA32 => x * 4,
    }
}

/// Bytes that must be present from a texel's offset on.
fn texel_length(f: ImgFormat) -> (r: usize)
    ensures
        r == texel_len(f),
{
    match f {
        ImgFormat::IA16 | ImgFormat::RGBA16 => 2,
        ImgFormat::RGBA32 | ImgFormat::IA32 => 4,
        _ => 1,
    }
}

/// A texel of column `x` of a `w`-wide row ends within the row.
proof fn lemma_texel_within_row(f: ImgFormat, w: nat, x: nat)
    requires
        x < w,
    ensures
        x * format_bits(f) / 8 + texel_len(f) <= row_bytes(f, w),
        row_bytes(f, w) <= w * 4,
{
    let b = format_bits(f);
    assert(x * b + b <= w * b) by (nonlinear_arith)
        requires
            x < w,
    ;
}

/// Every texel of a `w` by `h` image ends within `w * h * 4` bytes.
proof fn lemma_texel_in_bounds(f: ImgFormat, w: nat, h: nat, x: nat, y: nat)
    requires
        x < w,
        y < h,
    ensures
        texel_offset(f, w, x, y) + texel_len(f) <= w * h * 4,
{
    lemma_texel_within_row(f, w, x);
    let s = row_bytes(f, w);
    assert(y * s + s <= w * h * 4) by (nonlinear_arith)
        requires
            y < h,
            s <= w * 4,
    ;
}

/// Pixel `p` of a `w`-wide image lies in row `p / w`, below `h`.
proof fn lemma_row_in_bounds(p: int, w: int, h: int)
    requires
        0 <= p < w * h,
        w > 0,
    ensures
        0 <= p / w < h,
        0 <= p % w < w,
{
    lemma_fundamental_div_mod(p, w);
    let y = p / w;
    let x = p % w;
    assert(0 <= y < h) by (nonlinear_arith)
        requires
            p == w * y + x,
            0 <= x < w,
            0 <= p < w * h,
            w > 0,
    ;
}

/// The colour of the texel in column `x` whose bytes start at `o`.
fn texel_color(data: &[u8], f: ImgFormat, o: usize, x: usize) -> (c: Color)
    requires
        is_supported(f),
        o + texel_len(f) <= data@.len(),
    ensures
        c == texel_at(data@, f, o as int, x as nat),
{
    let b = data[o];
    match f {
        ImgFormat::OneBPP => {
            let shift = (7 - x % 8) as u8;
            if (b >> shift) & 1 == 1 {
                Color::white()
            } else {
                Color::black()
            }
        },
        ImgFormat::I4 => {
            assert((b & 0xF0u8) == (b / 16) * 16) by (bit_vector);
            assert(((b & 0x0Fu8) << 4u8) == (b % 16) * 16) by (bit_vector);
            let i = if x % 2 == 0 {
                b & 0xF0
            } else {
                (b & 0x0F) << 4
            };
            Color::new_rgb(i, i, i)
        },
        ImgFormat::IA4 => {
            assert((b >> 4u8) == b / 16) by (bit_vector);
            assert((b & 0x0Fu8) == b % 16) by (bit_vector);
            let n = if x % 2 == 0 {
                b >> 4
            } else {
                b & 0x0F
            };
            let v = n >> 1;
            let a = n & 1;
            assert((n >> 1u8) == n / 2 && (n & 1u8) == n % 2) by (bit_vector);
            assert(((v << 5u8) | (v << 2u8) | (v >> 1u8)) == v * 32 + v * 4 + v / 2) by (bit_vector)
                requires
                    v < 8u8,
            ;
            let i = (v << 5) | (v << 2) | (v >> 1);
            Color::new_rgba(i, i, i, a * 255)
        },
        ImgFormat::I8 => Color::new_rgb(b, b, b),
        ImgFormat::IA8 => {
            assert((b & 0xF0u8) == (b / 16) * 16) by (bit_vector);
            assert(((b & 0x0Fu8) << 4u8) == (b % 16) * 16) by (bit_vector);
            let i = b & 0xF0;
            Color::new_rgba(i, i, i, (b & 0x0F) << 4)
        },
        ImgFormat::IA16 => {
            let a = data[o + 1];
            Color::new_rgba(b, b, b, a)
        },
        ImgFormat::RGBA16 => {
            let pixel = read_be_u16(slice_subrange(data, o, o + 2));
            Color::from_u16(pixel)
        },
        _ => {
            let pixel = read_be_u32(slice_subrange(data, o, o + 4));
            Color::rgba_from_u32(pixel)
        },
    }
}

/// Unpacks a `width` by `height` texture of the given format from `data` into
/// RGBA8 bytes, row by row from the top. Texels whose bytes lie past the end of
/// `data` come out transparent black; bytes past the image are not read.
/// Colour-indexed formats fail for want of a palette, and `IA32` has no rule.
pub fn decode(data: &[u8], format: ImgFormat, width: usize, height: usize) -> (r: Result<
    DecodedImage,
    DecodeFault,
>)
    requires
        width * height * 4 <= usize::MAX,
    ensures
        decoded_as(r, decode_result(data@, format, width as nat, height as nat), width, height),
        r matches Ok(img) ==> img.pixels@.len() == width * height * 4,
{
    match format {
        ImgFormat::CI4 | ImgFormat::CI8 => {
            return Err(DecodeFault::UnresolvedPaletteFormat);
        },
        ImgFormat::IA32 => {
            return Err(DecodeFault::UnsupportedFormat);
        },
        _ => {},
    }
    let ghost expected = decoded_pixels(data@, format, width as nat, height as nat);
    let n = width * height;
    let mut pixels: Vec<u8> = Vec::new();
    if n == 0 {
        assert(pixels@ =~= expected);
        return Ok(DecodedImage { width, height, pixels });
    }
    assert(width * 4 <= usize::MAX) by (nonlinear_arith)
        requires
            width * height * 4 <= usize::MAX,
            width * height != 0,
    ;
    let stride = row_stride(format, width);
    let tlen = texel_length(format);
    let mut p: usize = 0;
    while p < n
        invariant
            p <= n,
            n == width * height,
            n > 0,
            width * 4 <= usize::MAX,
            n * 4 <= usize::MAX,
            stride == row_bytes(format, width as nat),
            tlen == texel_len(format),
            is_supported(format),
            expected == decoded_pixels(data@, format, width as nat, height as nat),
            pixels@.len() == 4 * p,
            forall|k: int| 0 <= k < 4 * p ==> pixels@[k] == expected[k],
        decreases n - p,
    {
        let x = p % width;
        let y = p / width;
        proof {
            lemma_row_in_bounds(p as int, width as int, height as int);
            lemma_texel_in_bounds(format, width as nat, height as nat, x as nat, y as nat);
            assert(x * 4 <= usize::MAX) by (nonlinear_arith)
                requires
                    x < width,
                    width * 4 <= usize::MAX,
            ;
        }
        let off = y * stride + column_offset(format, x);
        let c = if off <= data.len() && tlen <= data.len() - off {
            texel_color(data, format, off, x)
        } else {
            Color::transparent()
        };
        proof {
            assert(c == texel(data@, format, width as nat, x as nat, y as nat));
        }
        pixels.push(c.r);
        pixels.push(c.g);
        pixels.push(c.b);
        pixels.push(c.a);
        proof {
            assert forall|k: int| 4 * p <= k < 4 * p + 4 implies pixels@[k] == expected[k] by {
                assert(k / 4 == p);
            }
        }
        p += 1;
    }
    assert(pixels@ =~= expected);
    Ok(DecodedImage { width, height, pixels })
}

impl ImageData {
    /// A texture of the given format and size over the bytes read from its
    /// source.
    pub fn read(data: Vec<u8>, format: ImgFormat, width: usize, height: usize) -> (r: ImageData)
        ensures
            r.data@ == data@,
            r.format == format,
            r.width == width,
            r.height == height,
    {
        ImageData { format, width, height, data }
    }

    /// Unpacks the texture into RGBA8 bytes, as `decode` does.
    pub fn decode(&self) -> (r: Result<DecodedImage, DecodeFault>)
        requires
            self.width * self.height * 4 <= usize::MAX,
        ensures
            decoded_as(
                r,
                decode_result(self.data@, self.format, self.width as nat, self.height as nat),
                self.width,
                self.height,
            ),
    {
        decode(self.data.as_slice(), self.format, self.width, self.height)
    }
}

/// Every supported format decodes any byte sequence, of any length, to exactly
/// four bytes per texel; an image with no texels decodes to no bytes.
pub proof fn lemma_decode_length(data: Seq<u8>, f: ImgFormat, w: nat, h: nat)
    requires
        is_supported(f),
    ensures
        decode_result(data, f, w, h) matches Ok(px) && px.len() == w * h * 4,
        w * h == 0 ==> decode_result(data, f, w, h) == Ok::<Seq<u8>, DecodeFault>(Seq::empty()),
{
    if w * h == 0 {
        assert(decoded_pixels(data, f, w, h) =~= Seq::empty());
    }
}

/// A colour written as four bytes R, G, B, A and decoded as a one-texel RGBA32
/// image comes back unchanged.
pub proof fn lemma_rgba32_round_trip(c: Color)
    ensures
        decode_result(seq![c.r, c.g, c.b, c.a], ImgFormat::RGBA32, 1, 1) == Ok::<Seq<u8>, DecodeFault>(
            seq![c.r, c.g, c.b, c.a],
        ),
{
    let data = seq![c.r, c.g, c.b, c.a];
    let v = (c.r as int * 0x100_0000 + c.g as int * 0x1_0000 + c.b as int * 0x100 + c.a as int) as u32;
    assert(v as int == c.r as int * 0x100_0000 + c.g as int * 0x1_0000 + c.b as int * 0x100 + c.a as int);
    assert(texel_offset(ImgFormat::RGBA32, 1, 0, 0) == 0);
    assert(texel(data, ImgFormat::RGBA32, 1, 0, 0) == c);
    assert(decoded_pixels(data, ImgFormat::RGBA32, 1, 1) =~= data);
}

} // verus!
