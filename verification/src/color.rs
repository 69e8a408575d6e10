//! Colours with an alpha channel, and their packed 32-bit forms.

use vstd::prelude::*;

verus! {

/// A colour: red, green, blue and alpha, each from 0 to 255.
#[derive(Clone, Copy, Debug, PartialEq, Eq, Structural)]
pub struct Color {
    pub r: u8,
    pub g: u8,
    pub b: u8,
    pub a: u8,
}

/// The byte of `word` that stands `shift` bits above its lowest bit.
pub open spec fn byte_of(word: u32, shift: u32) -> u8 {
    ((word >> shift) & 0xff) as u8
}

/// The colour whose red, green and blue are the three low bytes of `rgb`, in
/// that order from the high one down, and whose alpha is `alpha`. The highest
/// byte of `rgb` does not count.
pub open spec fn unpacked(rgb: u32, alpha: u8) -> Color {
    Color { r: byte_of(rgb, 16), g: byte_of(rgb, 8), b: byte_of(rgb, 0), a: alpha }
}

/// The 32-bit value with alpha, red, green and blue as its four bytes, from
/// the highest down.
pub open spec fn packed(color: Color) -> u32 {
    ((color.a as u32) << 24) | ((color.r as u32) << 16) | ((color.g as u32) << 8) | (
    color.b as u32)
}

/// Opaque white.
pub open spec fn white() -> Color {
    Color { r: 255, g: 255, b: 255, a: 255 }
}

/// Calls `swf::Color::from_rgb`. Believed of it: the colour has `alpha` as
/// its alpha and the three low bytes of `rgb` as red, green and blue, the red
/// one being the highest of the three.
#[verifier::external_body]
pub(crate) fn color_from_rgb(rgb: u32, alpha: u8) -> (color: Color)
    ensures
        color == unpacked(rgb, alpha),
{
    let c = swf::Color::from_rgb(rgb, alpha);
    Color { r: c.r, g: c.g, b: c.b, a: c.a }
}

/// Calls `swf::Color::to_rgba`. Believed of it: the result has alpha, red,
/// green and blue as its four bytes, from the highest down.
#[verifier::external_body]
pub(crate) fn color_to_rgba(color: Color) -> (rgba: u32)
    ensures
        rgba == packed(color),
{
    let c = swf::Color { r: color.r, g: color.g, b: color.b, a: color.a };
    c.to_rgba()
}

/// Opaque white, made from its packed form.
pub fn opaque_white() -> (color: Color)
    ensures
        color == white(),
{
    proof {
        assert((0xff_ffffu32 >> 16u32) & 0xff == 255 && (0xff_ffffu32 >> 8u32) & 0xff == 255 && (
        0xff_ffffu32 >> 0u32) & 0xff == 255) by (bit_vector);
    }
    color_from_rgb(0xff_ffff, 255)
}

/// An opaque colour made from a 32-bit value packs to that value with its
/// highest byte set to 255.
pub proof fn lemma_opaque_round_trip(rgb: u32)
    ensures
        packed(unpacked(rgb, 255)) == 0xff00_0000u32 | (rgb & 0x00ff_ffffu32),
{
    let r = (rgb >> 16u32) & 0xff;
    let g = (rgb >> 8u32) & 0xff;
    let b = (rgb >> 0u32) & 0xff;
    assert(r < 256 && g < 256 && b < 256) by (bit_vector)
        requires
            r == (rgb >> 16u32) & 0xff,
            g == (rgb >> 8u32) & 0xff,
            b == (rgb >> 0u32) & 0xff,
    ;
    assert(((255u32 << 24u32) | (r << 16u32) | (g << 8u32) | b) == 0xff00_0000u32 | (rgb
        & 0x00ff_ffffu32)) by (bit_vector)
        requires
            r == (rgb >> 16u32) & 0xff,
            g == (rgb >> 8u32) & 0xff,
            b == (rgb >> 0u32) & 0xff,
    ;
    assert(byte_of(rgb, 16) as u32 == r);
    assert(byte_of(rgb, 8) as u32 == g);
    assert(byte_of(rgb, 0) as u32 == b);
}

} // verus!
