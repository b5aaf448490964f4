//! The rendered image: pixels with 8-bit channels, their plain-text pixel-map
//! encoding, and the progress reported per scanline.

use vstd::prelude::*;

verus! {

/// ASCII codes of the characters the encoding uses.
pub const DIGIT_ZERO: u8 = 48;
pub const SPACE: u8 = 32;
pub const NEWLINE: u8 = 10;
pub const LETTER_P: u8 = 80;

/// One output pixel; each channel is already quantized to `0..=255`.
#[derive(Clone, Copy, PartialEq, Eq, Debug, Structural)]
pub struct Pixel {
    pub r: u8,
    pub g: u8,
    pub b: u8,
}

/// ASCII decimal digits of `n`, most significant first, no leading zeros.
pub open spec fn decimal(n: nat) -> Seq<u8>
    decreases n,
{
    if n < 10 {
        seq![(DIGIT_ZERO + n) as u8]
    } else {
        decimal(n / 10).push((DIGIT_ZERO + n % 10) as u8)
    }
}

/// Number after the letter in the magic line of the plain-text pixel map
/// format.
pub const FORMAT_NUMBER: u32 = 3;

/// Largest channel value, written in the header.
pub const MAX_CHANNEL: u32 = 255;

/// Header of the text pixel map: the magic line, the dimensions, the maximum
/// channel value.
pub open spec fn header_text(width: nat, height: nat) -> Seq<u8> {
    seq![LETTER_P] + decimal(FORMAT_NUMBER as nat) + seq![NEWLINE] + decimal(width) + seq![SPACE]
        + decimal(height) + seq![NEWLINE] + decimal(MAX_CHANNEL as nat) + seq![NEWLINE]
}

/// One line `"<r> <g> <b>\n"` for a pixel.
pub open spec fn pixel_text(p: Pixel) -> Seq<u8> {
    decimal(p.r as nat) + seq![SPACE] + decimal(p.g as nat) + seq![SPACE] + decimal(p.b as nat)
        + seq![NEWLINE]
}

/// The lines of all pixels, in order.
pub open spec fn pixels_text(ps: Seq<Pixel>) -> Seq<u8>
    decreases ps.len(),
{
    if ps.len() == 0 {
        Seq::empty()
    } else {
        pixels_text(ps.drop_last()) + pixel_text(ps.last())
    }
}

/// The whole encoded image.
pub open spec fn ppm_text(width: nat, height: nat, ps: Seq<Pixel>) -> Seq<u8> {
    header_text(width, height) + pixels_text(ps)
}

/// Appends the decimal digits of `n`.
fn push_decimal(out: &mut Vec<u8>, n: u32)
    ensures
        final(out)@ == old(out)@ + decimal(n as nat),
    decreases n,
{
    if n >= 10 {
        push_decimal(out, n / 10);
    }
    let digit: u8 = (n % 10) as u8;
    out.push(DIGIT_ZERO + digit);
    proof {
        assert(final(out)@ =~= old(out)@ + decimal(n as nat));
    }
}

/// Appends the line of one pixel.
fn push_pixel(out: &mut Vec<u8>, p: Pixel)
    ensures
        final(out)@ == old(out)@ + pixel_text(p),
{
    push_decimal(out, p.r as u32);
    out.push(SPACE);
    push_decimal(out, p.g as u32);
    out.push(SPACE);
    push_decimal(out, p.b as u32);
    out.push(NEWLINE);
    proof {
        assert(final(out)@ =~= old(out)@ + pixel_text(p));
    }
}

/// Encodes an image as a plain-text pixel map: the header with `width` and
/// `height`, then one line per pixel in the order given (row-major, top row
/// first, for a rendered image).
pub fn encode_ppm(width: u32, height: u32, pixels: &Vec<Pixel>) -> (r: Vec<u8>)
    ensures
        r@ == ppm_text(width as nat, height as nat, pixels@),
{
    let mut out: Vec<u8> = Vec::new();
    out.push(LETTER_P);
    push_decimal(&mut out, FORMAT_NUMBER);
    out.push(NEWLINE);
    push_decimal(&mut out, width);
    out.push(SPACE);
    push_decimal(&mut out, height);
    out.push(NEWLINE);
    push_decimal(&mut out, MAX_CHANNEL);
    out.push(NEWLINE);
    assert(out@ =~= header_text(width as nat, height as nat));
    assert(pixels@.subrange(0, 0) =~= Seq::<Pixel>::empty());
    let mut i: usize = 0;
    while i < pixels.len()
        invariant
            i <= pixels.len(),
            out@ == header_text(width as nat, height as nat) + pixels_text(pixels@.subrange(0, i as int)),
        decreases pixels.len() - i,
    {
        push_pixel(&mut out, pixels[i]);
        proof {
            let done = pixels@.subrange(0, i + 1);
            assert(done.drop_last() =~= pixels@.subrange(0, i as int));
            assert(done.last() == pixels@[i as int]);
        }
        i = i + 1;
    }
    assert(pixels@.subrange(0, i as int) =~= pixels@);
    out
}

/// Percentage of the image done once scanline `row` (counted from zero) of
/// `height` has been rendered.
pub open spec fn progress_of(row: nat, height: nat) -> nat {
    (((row + 1) * 100) as int / height as int) as nat
}

/// The completion percentage to report after scanline `row` of `height`.
pub fn progress_percent(row: u32, height: u32) -> (r: u32)
    requires
        row < height,
    ensures
        r == progress_of(row as nat, height as nat),
        r <= 100,
{
    let done: u64 = (row as u64 + 1) * 100;
    proof {
        assert((row + 1) * 100 <= height * 100) by (nonlinear_arith)
            requires
                row < height,
        ;
        vstd::arithmetic::div_mod::lemma_div_is_ordered(
            (row + 1) * 100,
            height * 100,
            height as int,
        );
        vstd::arithmetic::div_mod::lemma_div_multiples_vanish(100, height as int);
    }
    (done / height as u64) as u32
}

/// The reported progress never goes back as scanlines complete, and the last
/// scanline reports the whole image done.
pub proof fn lemma_progress_monotone(earlier: nat, later: nat, height: nat)
    requires
        earlier <= later < height,
    ensures
        progress_of(earlier, height) <= progress_of(later, height),
        progress_of((height - 1) as nat, height) == 100,
{
    assert((earlier + 1) * 100 <= (later + 1) * 100) by (nonlinear_arith)
        requires
            earlier <= later,
    ;
    vstd::arithmetic::div_mod::lemma_div_is_ordered(
        ((earlier + 1) * 100) as int,
        ((later + 1) * 100) as int,
        height as int,
    );
    vstd::arithmetic::div_mod::lemma_div_multiples_vanish(100, height as int);
}

} // verus!
