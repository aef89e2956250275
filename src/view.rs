use vstd::prelude::*;
use vstd::arithmetic::div_mod::{lemma_fundamental_div_mod, lemma_fundamental_div_mod_converse_div};
use crate::textures::{format_bits, ImgFormat};

verus! {

/// Which way the mouse wheel moved the file cursor.
#[derive(Debug, Clone, Copy, PartialEq, Eq, Structural)]
pub enum Scroll {
    Back,
    Still,
    Forward,
}

/// Rows of the preview that one wheel step moves the cursor by.
pub const SCROLL_ROWS: usize = 4;

/// Largest side, in texels, of the square preview before it is rounded up to a
/// power of two.
pub const MAX_PREVIEW_SIDE: usize = 64;

/// Bytes that one wheel step moves the cursor by: `SCROLL_ROWS` rows of `width`
/// texels, each row rounded down to whole bytes.
pub open spec fn scroll_step(width: nat, f: ImgFormat) -> int {
    SCROLL_ROWS * (width * format_bits(f) / 8)
}

/// The cursor after a wheel step, kept between the start and the end of the
/// data.
pub open spec fn scrolled(pos: nat, dir: Scroll, width: nat, f: ImgFormat, len: nat) -> nat {
    let target = match dir {
        Scroll::Back => pos - scroll_step(width, f),
        Scroll::Still => pos as int,
        Scroll::Forward => pos + scroll_step(width, f),
    };
    if target < 0 {
        0
    } else if target > len {
        len
    } else {
        target as nat
    }
}

/// Moves the file cursor `pos` by one wheel step over a preview `width` texels
/// wide, keeping it within `0..=len`.
pub fn scroll_position(pos: usize, dir: Scroll, width: usize, format: ImgFormat, len: usize) -> (r: usize)
    ensures
        r == scrolled(pos as nat, dir, width as nat, format, len as nat),
        r <= len,
{
    let bits = format.bits_per_pixel() as u128;
    let w = width as u128;
    assert(w * bits <= 0xFFFF_FFFF_FFFF_FFFF * 32) by (nonlinear_arith)
        requires
            w <= 0xFFFF_FFFF_FFFF_FFFF,
            bits <= 32,
    ;
    let step = (SCROLL_ROWS as u128) * ((w * bits) / 8);
    let p = pos as u128;
    let l = len as u128;
    let target: u128 = match dir {
        Scroll::Back => if p >= step {
            p - step
        } else {
            0
        },
        Scroll::Still => p,
        Scroll::Forward => p + step,
    };
    if target > l {
        len
    } else {
        target as usize
    }
}

/// `n` is a power of two.
pub open spec fn is_pow2(n: nat) -> bool
    decreases n,
{
    if n <= 1 {
        n == 1
    } else {
        n % 2 == 0 && is_pow2(n / 2)
    }
}

/// Texels that `data_size` bytes of format `f` hold.
pub open spec fn texel_count(f: ImgFormat, data_size: nat) -> nat {
    data_size * 8 / format_bits(f)
}

/// `s` is the side of the largest square of at most `t` texels, capped at
/// `MAX_PREVIEW_SIDE`.
pub open spec fn capped_root(s: nat, t: nat) -> bool {
    s <= MAX_PREVIEW_SIDE && s * s <= t && (s == MAX_PREVIEW_SIDE || (s + 1) * (s + 1) > t)
}

/// Picks the square preview size for `data_size` bytes of `format`.
pub fn preview_dimension(format: ImgFormat, data_size: usize) -> (r: usize)
    ensures
        is_pow2(r as nat),
        1 <= r <= MAX_PREVIEW_SIDE,
        exists|s: nat| #[trigger] capped_root(s, texel_count(format, data_size as nat)) && r >= s && (r == 1 || r / 2 < s),
{
    let bits = format.bits_per_pixel();
    let q = data_size / bits;
    let rem = data_size % bits;
    let texels: u128 = (q as u128) * 8 + ((rem * 8) / bits) as u128;
    proof {
        let b = bits as int;
        let d = data_size as int;
        let e = rem as int * 8;
        lemma_fundamental_div_mod(d, b);
        lemma_fundamental_div_mod(e, b);
        assert(d * 8 == (q * 8 + e / b) * b + e % b) by (nonlinear_arith)
            requires
                d == b * q + rem,
                e == rem * 8,
                e == b * (e / b) + e % b,
        ;
        lemma_fundamental_div_mod_converse_div(d * 8, b, q * 8 + e / b, e % b);
    }
    let mut side: u128 = 0;
    let mut done = false;
    while !done && side < MAX_PREVIEW_SIDE as u128
        invariant
            side <= MAX_PREVIEW_SIDE,
            side * side <= texels,
            done ==> (side + 1) * (side + 1) > texels,
        decreases MAX_PREVIEW_SIDE - side, if done { 0int } else { 1int },
    {
        let next = side + 1;
        assert(next * next <= 4096) by (nonlinear_arith)
            requires
                1 <= next <= 64,
        ;
        if next * next <= texels {
            side = next;
        } else {
            done = true;
        }
    }
    let mut p: u128 = 1;
    while p < side
        invariant
            is_pow2(p as nat),
            1 <= p <= MAX_PREVIEW_SIDE,
            side <= MAX_PREVIEW_SIDE,
            p == 1 || p / 2 < side,
        decreases MAX_PREVIEW_SIDE - p,
    {
        assert(is_pow2((p * 2) as nat)) by {
            assert((p * 2) as nat / 2 == p as nat);
        }
        proof {
            lemma_pow2_le_64(p as nat, side as nat);
        }
        p = p * 2;
    }
    assert(capped_root(side as nat, texel_count(format, data_size as nat)));
    p as usize
}

/// Doubling a power of two below `s <= 64` stays within 64.
proof fn lemma_pow2_le_64(p: nat, s: nat)
    requires
        is_pow2(p),
        p < s,
        s <= MAX_PREVIEW_SIDE,
    ensures
        p * 2 <= MAX_PREVIEW_SIDE,
{
    reveal_with_fuel(is_pow2, 8);
    assert(p == 1 || p == 2 || p == 4 || p == 8 || p == 16 || p == 32) by {
        if p > 32 {
            assert(p < 64);
        }
    }
}

} // verus!
