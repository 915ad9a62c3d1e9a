//! Colors as 32-bit words: red in the highest byte, then green, blue, alpha.

use vstd::prelude::*;
use piet::Color;

verus! {

/// `piet::Color`: a color, today always a 32-bit RGBA word.
#[verifier::external_type_specification]
pub struct ExColor(Color);

/// The RGBA word of a color.
pub open spec fn rgba_of(color: Color) -> u32 {
    match color {
        Color::Rgba32(rgba) => rgba,
    }
}

/// `piet::Color::as_rgba_u32`: the word that the color holds.
pub assume_specification[ Color::as_rgba_u32 ](color: &Color) -> (rgba: u32)
    ensures
        rgba == rgba_of(*color),
;

/// The four channels of a color, one byte each.
#[derive(Clone, Copy, Debug, PartialEq, Eq, Structural)]
pub struct Rgba8 {
    pub r: u8,
    pub g: u8,
    pub b: u8,
    pub a: u8,
}

/// The channels of an RGBA word.
pub open spec fn channels(rgba: u32) -> Rgba8 {
    Rgba8 {
        r: ((rgba >> 24) & 255) as u8,
        g: ((rgba >> 16) & 255) as u8,
        b: ((rgba >> 8) & 255) as u8,
        a: (rgba & 255) as u8,
    }
}

/// The word that holds the four channels in the order red, green, blue,
/// alpha, from the highest byte down.
pub open spec fn word_of(c: Rgba8) -> u32 {
    ((c.r as u32) << 24) | ((c.g as u32) << 16) | ((c.b as u32) << 8) | (c.a as u32)
}

/// The lowest byte of a word: the numerator, over 255, of the fraction
/// that the backend takes for a channel.
pub fn channel_byte(word: u32) -> (byte: u8)
    ensures
        byte == word & 255,
{
    let low: u32 = word & 255;
    assert(low <= 255) by (bit_vector)
        requires
            low == word & 255,
    ;
    low as u8
}

/// Splits an RGBA word into its channels.
pub fn color_channels(rgba: u32) -> (c: Rgba8)
    ensures
        c == channels(rgba),
{
    Rgba8 {
        r: channel_byte(rgba >> 24),
        g: channel_byte(rgba >> 16),
        b: channel_byte(rgba >> 8),
        a: channel_byte(rgba),
    }
}

/// Splitting a word into channels loses nothing: the channels, put back in
/// the fixed order, give the word again.
pub proof fn lemma_channels_recompose(rgba: u32)
    ensures
        word_of(channels(rgba)) == rgba,
{
    let r = ((rgba >> 24) & 255) as u8;
    let g = ((rgba >> 16) & 255) as u8;
    let b = ((rgba >> 8) & 255) as u8;
    let a = (rgba & 255) as u8;
    assert(((r as u32) << 24) | ((g as u32) << 16) | ((b as u32) << 8) | (a as u32) == rgba) by (bit_vector)
        requires
            r == ((rgba >> 24) & 255) as u8,
            g == ((rgba >> 16) & 255) as u8,
            b == ((rgba >> 8) & 255) as u8,
            a == (rgba & 255) as u8,
    ;
}

/// Each channel of a word built from four bytes is the byte it was built
/// from.
pub proof fn lemma_channels_of_word(c: Rgba8)
    ensures
        channels(word_of(c)) == c,
{
    let r = c.r;
    let g = c.g;
    let b = c.b;
    let a = c.a;
    let w = ((r as u32) << 24) | ((g as u32) << 16) | ((b as u32) << 8) | (a as u32);
    assert(((w >> 24) & 255) as u8 == r && ((w >> 16) & 255) as u8 == g && ((w >> 8) & 255) as u8 == b && (w
        & 255) as u8 == a) by (bit_vector)
        requires
            w == ((r as u32) << 24) | ((g as u32) << 16) | ((b as u32) << 8) | (a as u32),
    ;
}

} // verus!
