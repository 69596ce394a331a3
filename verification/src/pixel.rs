//! Packed 24-bit pixels and the per-channel saturating difference.
//!
//! A packed pixel stores three 8-bit channels in one `u32`: red in bits
//! 16..24, green in bits 8..16, blue in bits 0..8.

use vstd::prelude::*;

verus! {

/// The red channel of a packed pixel.
pub open spec fn spec_red(p: u32) -> u32 {
    (p >> 16) & 0xff
}

/// The green channel of a packed pixel.
pub open spec fn spec_green(p: u32) -> u32 {
    (p >> 8) & 0xff
}

/// The blue channel of a packed pixel.
pub open spec fn spec_blue(p: u32) -> u32 {
    p & 0xff
}

/// Three 8-bit channels packed into one pixel, red highest.
pub open spec fn spec_pack(r: u32, g: u32, b: u32) -> u32 {
    (r << 16) | (g << 8) | b
}

/// Saturating subtraction on the 8-bit channel domain: `max(a - b, 0)`,
/// never negative, never wrapped.
pub open spec fn spec_sat_sub(a: u32, b: u32) -> u32 {
    if a >= b {
        (a - b) as u32
    } else {
        0u32
    }
}

/// The motion pixel derived from the newest pixel `n` and the three lagged
/// pixels `fr`, `fg`, `fb`: each output channel is the saturating difference
/// of the corresponding channels of `n` and of that channel's lagged pixel.
pub open spec fn spec_diff_pixel(n: u32, fr: u32, fg: u32, fb: u32) -> u32 {
    spec_pack(
        spec_sat_sub(spec_red(n), spec_red(fr)),
        spec_sat_sub(spec_green(n), spec_green(fg)),
        spec_sat_sub(spec_blue(n), spec_blue(fb)),
    )
}

/// Every extracted channel lies in the 8-bit range `[0, 255]`.
pub proof fn lemma_channel_range(p: u32)
    ensures
        spec_red(p) <= 255,
        spec_green(p) <= 255,
        spec_blue(p) <= 255,
{
    assert((p >> 16) & 0xff <= 255) by (bit_vector);
    assert((p >> 8) & 0xff <= 255) by (bit_vector);
    assert(p & 0xff <= 255) by (bit_vector);
}

/// Packing three in-range channels and extracting them again gives the
/// channels back unchanged.
pub proof fn lemma_pack_channels(r: u32, g: u32, b: u32)
    requires
        r <= 255,
        g <= 255,
        b <= 255,
    ensures
        spec_red(spec_pack(r, g, b)) == r,
        spec_green(spec_pack(r, g, b)) == g,
        spec_blue(spec_pack(r, g, b)) == b,
{
    assert((((r << 16) | (g << 8) | b) >> 16) & 0xff == r) by (bit_vector)
        requires
            r <= 255,
            g <= 255,
            b <= 255,
    ;
    assert((((r << 16) | (g << 8) | b) >> 8) & 0xff == g) by (bit_vector)
        requires
            r <= 255,
            g <= 255,
            b <= 255,
    ;
    assert(((r << 16) | (g << 8) | b) & 0xff == b) by (bit_vector)
        requires
            r <= 255,
            g <= 255,
            b <= 255,
    ;
}

/// Law: no channel of a motion pixel is ever negative or above 255, and each
/// equals the saturating difference of the matching input channels.
pub proof fn lemma_diff_pixel_channels(n: u32, fr: u32, fg: u32, fb: u32)
    ensures
        spec_red(spec_diff_pixel(n, fr, fg, fb)) == spec_sat_sub(spec_red(n), spec_red(fr)),
        spec_green(spec_diff_pixel(n, fr, fg, fb)) == spec_sat_sub(spec_green(n), spec_green(fg)),
        spec_blue(spec_diff_pixel(n, fr, fg, fb)) == spec_sat_sub(spec_blue(n), spec_blue(fb)),
        spec_red(spec_diff_pixel(n, fr, fg, fb)) <= 255,
        spec_green(spec_diff_pixel(n, fr, fg, fb)) <= 255,
        spec_blue(spec_diff_pixel(n, fr, fg, fb)) <= 255,
{
    lemma_channel_range(n);
    lemma_channel_range(fr);
    lemma_channel_range(fg);
    lemma_channel_range(fb);
    lemma_pack_channels(
        spec_sat_sub(spec_red(n), spec_red(fr)),
        spec_sat_sub(spec_green(n), spec_green(fg)),
        spec_sat_sub(spec_blue(n), spec_blue(fb)),
    );
}

/// Extracts the red channel of a packed pixel.
pub fn red_channel(p: u32) -> (r: u32)
    ensures
        r == spec_red(p),
        r <= 255,
{
    proof {
        lemma_channel_range(p);
    }
    (p >> 16) & 0xff
}

/// Extracts the green channel of a packed pixel.
pub fn green_channel(p: u32) -> (r: u32)
    ensures
        r == spec_green(p),
        r <= 255,
{
    proof {
        lemma_channel_range(p);
    }
    (p >> 8) & 0xff
}

/// Extracts the blue channel of a packed pixel.
pub fn blue_channel(p: u32) -> (r: u32)
    ensures
        r == spec_blue(p),
        r <= 255,
{
    proof {
        lemma_channel_range(p);
    }
    p & 0xff
}

/// Packs three 8-bit channels into one pixel.
pub fn pack_channels(r: u32, g: u32, b: u32) -> (p: u32)
    requires
        r <= 255,
        g <= 255,
        b <= 255,
    ensures
        p == spec_pack(r, g, b),
{
    (r << 16) | (g << 8) | b
}

/// Saturating subtraction on the 8-bit channel domain.
pub fn saturating_subtract(a: u32, b: u32) -> (r: u32)
    ensures
        r == spec_sat_sub(a, b),
        r <= a,
{
    if a >= b {
        a - b
    } else {
        0
    }
}

/// Computes one motion pixel from the newest pixel and the three lagged
/// pixels.
pub fn diff_pixel(n: u32, fr: u32, fg: u32, fb: u32) -> (p: u32)
    ensures
        p == spec_diff_pixel(n, fr, fg, fb),
{
    let dr = saturating_subtract(red_channel(n), red_channel(fr));
    let dg = saturating_subtract(green_channel(n), green_channel(fg));
    let db = saturating_subtract(blue_channel(n), blue_channel(fb));
    pack_channels(dr, dg, db)
}

} // verus!
