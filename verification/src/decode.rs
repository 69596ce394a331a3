//! Decoding one compressed frame into packed pixels.
//!
//! The compressed-to-samples step is the jpeg decoder's, treated as an
//! opaque function of the byte stream. Packing the interleaved 8-bit RGB
//! samples into `width * height` packed pixels, in raster order
//! (top-to-bottom, left-to-right), is this module's verified logic. A frame
//! whose decoded sample count does not match the configured dimensions is a
//! fatal decode error for that frame.

use crate::pixel::pack_channels;
use crate::pixel::spec_pack;
use vstd::arithmetic::div_mod::lemma_fundamental_div_mod;
use vstd::arithmetic::div_mod::lemma_mod_bound;
use vstd::prelude::*;

verus! {

/// Outcome of the jpeg decoder on one compressed byte stream: `None` when
/// the stream is rejected as malformed, otherwise the decoded sample bytes,
/// interleaved in raster order. The outcome depends on the bytes alone.
pub uninterp spec fn jpeg_samples_of(bytes: Seq<u8>) -> Option<Seq<u8>>;

/// Why a compressed frame failed to decode.
#[derive(Clone, Copy, Debug, PartialEq, Eq, Structural)]
pub enum DecodeError {
    /// The decoder rejected the compressed stream.
    Malformed,
    /// The stream decoded, but not to `3 * (width * height)` sample bytes.
    SizeMismatch,
}

/// Relies on `jpeg_decoder::Decoder::new` and `Decoder::decode`: decoding
/// reads nothing but the compressed bytes, so its outcome is a function of
/// them alone; `decode` returns the interleaved samples on success and an
/// error on a malformed stream.
#[verifier::external_body]
fn jpeg_decode_samples(bytes: &Vec<u8>) -> (r: Option<Vec<u8>>)
    ensures
        match r {
            Some(samples) => jpeg_samples_of(bytes@) == Some(samples@),
            None => jpeg_samples_of(bytes@) is None,
        },
{
    let mut decoder = jpeg_decoder::Decoder::new(std::io::Cursor::new(bytes.as_slice()));
    decoder.decode().ok()
}

/// The packed pixels of an interleaved sample stream, three bytes per
/// pixel, in the order the samples come.
pub open spec fn spec_packed_pixels(samples: Seq<u8>) -> Seq<u32> {
    Seq::new(
        samples.len() / 3,
        |i: int| spec_pack(samples[3 * i] as u32, samples[3 * i + 1] as u32, samples[3 * i + 2] as u32),
    )
}

/// Packs every group of three interleaved samples into one pixel, keeping
/// the samples' order.
pub fn pack_samples(samples: &Vec<u8>) -> (pixels: Vec<u32>)
    ensures
        pixels@ == spec_packed_pixels(samples@),
        pixels@.len() == samples@.len() / 3,
{
    let total = samples.len();
    let n = total / 3;
    proof {
        lemma_fundamental_div_mod(samples@.len() as int, 3);
        lemma_mod_bound(samples@.len() as int, 3);
        assert(3 * n <= samples@.len());
        assert(samples@.len() <= usize::MAX);
    }
    let mut pixels: Vec<u32> = Vec::with_capacity(n);
    let mut i: usize = 0;
    while i < n
        invariant
            i <= n,
            n == samples@.len() / 3,
            3 * n <= samples@.len(),
            samples@.len() <= usize::MAX,
            pixels@.len() == i,
            forall|j: int| 0 <= j < i ==> pixels@[j] == spec_packed_pixels(samples@)[j],
        decreases n - i,
    {
        assert(3 * i + 2 < samples@.len());
        let r = samples[3 * i] as u32;
        let g = samples[3 * i + 1] as u32;
        let b = samples[3 * i + 2] as u32;
        let p = pack_channels(r, g, b);
        pixels.push(p);
        i = i + 1;
    }
    proof {
        assert(pixels@ =~= spec_packed_pixels(samples@));
    }
    pixels
}

/// Decodes one compressed frame into exactly `width * height` packed
/// pixels in raster order. Succeeds if and only if the decoder accepts the
/// stream and it decodes to exactly `3 * (width * height)` sample bytes;
/// each error variant names which of the two failed.
pub fn decode_frame(bytes: &Vec<u8>, width: usize, height: usize) -> (r: Result<
    Vec<u32>,
    DecodeError,
>)
    requires
        width * height <= usize::MAX / 3,
    ensures
        match r {
            Ok(pixels) => {
                &&& jpeg_samples_of(bytes@) is Some
                &&& jpeg_samples_of(bytes@).unwrap().len() == 3 * (width * height)
                &&& pixels@ == spec_packed_pixels(jpeg_samples_of(bytes@).unwrap())
                &&& pixels@.len() == width * height
            },
            Err(DecodeError::Malformed) => jpeg_samples_of(bytes@) is None,
            Err(DecodeError::SizeMismatch) => jpeg_samples_of(bytes@) is Some
                && jpeg_samples_of(bytes@).unwrap().len() != 3 * (width * height),
        },
{
    let expected = width * height;
    match jpeg_decode_samples(bytes) {
        None => Err(DecodeError::Malformed),
        Some(samples) => {
            if samples.len() != expected * 3 {
                Err(DecodeError::SizeMismatch)
            } else {
                let pixels = pack_samples(&samples);
                proof {
                    lemma_fundamental_div_mod(samples@.len() as int, 3);
                    lemma_mod_bound(samples@.len() as int, 3);
                    assert(samples@.len() / 3 == expected);
                }
                Ok(pixels)
            }
        },
    }
}

} // verus!
