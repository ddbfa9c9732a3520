use vstd::prelude::*;

verus! {

/// Number of brightness bins, and so of glyphs.
pub const GLYPH_COUNT: usize = 10;

/// Perceptual brightness of an RGB colour, `0.299 r + 0.587 g + 0.114 b`,
/// truncated to an integer.
pub open spec fn spec_luminance(r: u8, g: u8, b: u8) -> int {
    (299 * r + 587 * g + 114 * b) / 1000
}

/// Lowest luminance of bin `i`.
pub open spec fn bin_low(i: int) -> int {
    if i == 0 {
        0
    } else {
        25 * i + 1
    }
}

/// Highest luminance of bin `i`.
pub open spec fn bin_high(i: int) -> int {
    if i == GLYPH_COUNT - 1 {
        255
    } else {
        25 * i + 25
    }
}

/// The glyph of bin `i`, darkest first.
pub open spec fn glyph_of_bin(i: int) -> char {
    if i == 0 {
        ' '
    } else if i == 1 {
        '.'
    } else if i == 2 {
        ':'
    } else if i == 3 {
        '-'
    } else if i == 4 {
        '='
    } else if i == 5 {
        '+'
    } else if i == 6 {
        '*'
    } else if i == 7 {
        '#'
    } else if i == 8 {
        '@'
    } else {
        '\u{2588}'
    }
}

/// The bin that holds luminance `l`.
pub open spec fn bin_of(l: int) -> int {
    if l <= 25 {
        0
    } else if l > 225 {
        GLYPH_COUNT - 1
    } else {
        (l - 1) / 25
    }
}

/// The glyph that stands for luminance `l`.
pub open spec fn spec_glyph(l: int) -> char {
    glyph_of_bin(bin_of(l))
}

/// The bins cover `0..=255` in order, each one starting right after the
/// previous one ends, with no gap and no overlap.
pub proof fn lemma_bins_contiguous()
    ensures
        bin_low(0) == 0,
        bin_high(GLYPH_COUNT - 1) == 255,
        forall|i: int| 0 <= i < GLYPH_COUNT ==> #[trigger] bin_low(i) <= bin_high(i),
        forall|i: int| 0 <= i < GLYPH_COUNT - 1 ==> #[trigger] bin_low(i + 1) == bin_high(i) + 1,
{
}

/// Every luminance in `0..=255` lies in exactly one bin, the one `bin_of`
/// names, and so gets exactly one glyph.
pub proof fn lemma_glyph_total(l: int)
    requires
        0 <= l <= 255,
    ensures
        0 <= bin_of(l) < GLYPH_COUNT,
        bin_low(bin_of(l)) <= l <= bin_high(bin_of(l)),
        forall|i: int| 0 <= i < GLYPH_COUNT && bin_low(i) <= l <= #[trigger] bin_high(i) ==> i == bin_of(l),
{
}

/// The luminance of `(r, g, b)`, in `0..=255`.
pub fn luminance(r: u8, g: u8, b: u8) -> (l: u8)
    ensures
        l == spec_luminance(r, g, b),
{
    let sum: u32 = 299 * (r as u32) + 587 * (g as u32) + 114 * (b as u32);
    (sum / 1000) as u8
}

/// The glyph for a luminance value.
pub fn glyph_for_luminance(l: u8) -> (c: char)
    ensures
        c == spec_glyph(l as int),
{
    match l {
        0..=25 => ' ',
        26..=50 => '.',
        51..=75 => ':',
        76..=100 => '-',
        101..=125 => '=',
        126..=150 => '+',
        151..=175 => '*',
        176..=200 => '#',
        201..=225 => '@',
        226..=255 => '\u{2588}',
    }
}

/// The glyph for an RGB colour: the one whose bin holds its luminance.
pub fn glyph_for(r: u8, g: u8, b: u8) -> (c: char)
    ensures
        c == spec_glyph(spec_luminance(r, g, b)),
{
    glyph_for_luminance(luminance(r, g, b))
}

} // verus!
