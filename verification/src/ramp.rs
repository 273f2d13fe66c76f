//! The brightness ramp and the quantizer from luminance to glyph.

use vstd::prelude::*;

verus! {

/// The glyphs of the ramp, from the darkest to the brightest.
pub const RAMP: &'static str = " .:;!>/lwO0&@";

/// Number of glyphs in the ramp.
pub const RAMP_LEN: usize = 13;

/// The ramp as a sequence of characters.
pub open spec fn ramp() -> Seq<char> {
    RAMP@
}

/// Index of the glyph that stands for luminance `v`: the ramp is spread
/// linearly over `0..=255` and the position is rounded down.
pub open spec fn ramp_index(v: u8) -> int {
    (v as int) * (RAMP_LEN - 1) / 255
}

/// The glyph that stands for luminance `v`.
pub open spec fn glyph(v: u8) -> char {
    ramp()[ramp_index(v)]
}

/// The ramp holds exactly `RAMP_LEN` glyphs, in this order.
pub proof fn ramp_glyphs()
    ensures
        ramp() =~= seq![' ', '.', ':', ';', '!', '>', '/', 'l', 'w', 'O', '0', '&', '@'],
        ramp().len() == RAMP_LEN,
{
    reveal_strlit(" .:;!>/lwO0&@");
}

/// Every luminance has a glyph, and the glyph is one of the ramp.
pub proof fn glyph_in_ramp(v: u8)
    ensures
        0 <= ramp_index(v) < ramp().len(),
        ramp().contains(glyph(v)),
{
    ramp_glyphs();
}

/// A brighter pixel never gets a glyph from further down the ramp.
pub proof fn ramp_index_monotonic(darker: u8, brighter: u8)
    requires
        darker <= brighter,
    ensures
        ramp_index(darker) <= ramp_index(brighter),
{
}

/// No glyph is a newline or a carriage return.
pub proof fn glyph_is_no_line_break(v: u8)
    ensures
        glyph(v) != '\n',
        glyph(v) != '\r',
{
    ramp_glyphs();
}

/// Maps a luminance byte to its glyph.
pub fn map_to_ascii(grayscale_value: u8) -> (c: char)
    ensures
        c == glyph(grayscale_value),
        0 <= ramp_index(grayscale_value) < RAMP_LEN,
        ramp().contains(c),
{
    proof {
        ramp_glyphs();
    }
    let last: usize = RAMP_LEN - 1;
    assert(last == 12);
    let index: usize = (grayscale_value as usize) * last / 255;
    RAMP.get_char(index)
}

} // verus!
