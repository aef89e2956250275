use vstd::prelude::*;
use crate::decoder::{decode, decode_result, decoded_pixels, is_supported, DecodeFault, DecodedImage};
use crate::textures::ImgFormat;

verus! {

/// `s` cut or zero-filled to exactly `n` bytes.
pub open spec fn padded(s: Seq<u8>, n: nat) -> Seq<u8> {
    if s.len() < n {
        s + Seq::new((n - s.len()) as nat, |i: int| 0u8)
    } else {
        s.subrange(0, n as int)
    }
}

/// What decoding a `w` by `h` tile at `offset` in `data` gives: nothing when
/// the offset lies past the end, else the decoding of the bytes from the offset
/// on.
pub open spec fn window_result(data: Seq<u8>, offset: nat, f: ImgFormat, w: nat, h: nat) -> Result<
    Option<Seq<u8>>,
    DecodeFault,
> {
    if offset > data.len() {
        Ok(None)
    } else {
        match decode_result(data.subrange(offset as int, data.len() as int), f, w, h) {
            Ok(px) => Ok(Some(px)),
            Err(e) => Err(e),
        }
    }
}

/// Whether `r` is the outcome that `window_result` describes for a tile of `w`
/// by `h` texels.
pub open spec fn window_as(
    r: Result<Option<DecodedImage>, DecodeFault>,
    expected: Result<Option<Seq<u8>>, DecodeFault>,
    w: usize,
    h: usize,
) -> bool {
    match expected {
        Ok(None) => r matches Ok(None),
        Ok(Some(px)) => r matches Ok(Some(img)) && img.pixels@ == px && img.width == w && img.height == h,
        Err(e) => r == Err::<Option<DecodedImage>, DecodeFault>(e),
    }
}

/// Cuts `data` to `length` bytes, or fills it up with zero bytes to that length.
pub fn pad_to_length(data: Vec<u8>, length: usize) -> (r: Vec<u8>)
    ensures
        r@ == padded(data@, length as nat),
        r@.len() == length,
{
    let mut ret = data;
    if ret.len() < length {
        let ghost start = ret@;
        while ret.len() < length
            invariant
                start.len() <= ret@.len() <= length,
                ret@ =~= start + Seq::new((ret@.len() - start.len()) as nat, |i: int| 0u8),
            decreases length - ret.len(),
        {
            ret.push(0);
        }
        assert(ret@ =~= padded(start, length as nat));
    } else {
        ret.truncate(length);
    }
    ret
}

/// Decodes a `width` by `height` tile that starts `offset` bytes into `data`.
/// An offset past the end gives `None`: there is nothing to draw. Otherwise the
/// bytes from the offset to the end are decoded, and texels past their end come
/// out transparent black.
pub fn decode_window(data: &[u8], offset: usize, format: ImgFormat, width: usize, height: usize) -> (r:
    Result<Option<DecodedImage>, DecodeFault>)
    requires
        width * height * 4 <= usize::MAX,
    ensures
        window_as(r, window_result(data@, offset as nat, format, width as nat, height as nat), width, height),
        r matches Ok(Some(img)) ==> img.pixels@.len() == width * height * 4,
{
    if offset > data.len() {
        return Ok(None);
    }
    let rest = vstd::slice::slice_subrange(data, offset, data.len());
    match decode(rest, format, width, height) {
        Ok(img) => Ok(Some(img)),
        Err(e) => Err(e),
    }
}

/// A tile that starts exactly at the end of the buffer has no byte to decode:
/// every texel of it is transparent black, so nothing shows.
pub proof fn lemma_window_at_end(data: Seq<u8>, f: ImgFormat, w: nat, h: nat)
    requires
        is_supported(f),
    ensures
        window_result(data, data.len(), f, w, h) == Ok::<Option<Seq<u8>>, DecodeFault>(
            Some(Seq::new(w * h * 4, |i: int| 0u8)),
        ),
{
    let rest = data.subrange(data.len() as int, data.len() as int);
    let px = decoded_pixels(rest, f, w, h);
    assert forall|k: int| 0 <= k < w * h * 4 implies px[k] == 0u8 by {
        assert(rest.len() == 0);
    }
    assert(px =~= Seq::new(w * h * 4, |i: int| 0u8));
}

/// A tile that starts at the last byte of the buffer is decoded from that one
/// byte, and zero-filled to its full size.
pub proof fn lemma_window_at_last_byte(data: Seq<u8>, f: ImgFormat, w: nat, h: nat)
    requires
        is_supported(f),
        data.len() >= 1,
    ensures
        window_result(data, (data.len() - 1) as nat, f, w, h) == Ok::<Option<Seq<u8>>, DecodeFault>(
            Some(decoded_pixels(seq![data.last()], f, w, h)),
        ),
        decoded_pixels(seq![data.last()], f, w, h).len() == w * h * 4,
{
    assert(data.subrange(data.len() - 1, data.len() as int) =~= seq![data.last()]);
}

/// Past the end of the buffer there is nothing to draw, whatever the format.
pub proof fn lemma_window_past_end(data: Seq<u8>, offset: nat, f: ImgFormat, w: nat, h: nat)
    requires
        offset > data.len(),
    ensures
        window_result(data, offset, f, w, h) == Ok::<Option<Seq<u8>>, DecodeFault>(None),
{
}

} // verus!
