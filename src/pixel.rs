//! Packed pixel formats and the conversion between them.

use vstd::prelude::*;

verus! {

/// One pixel in the server's packed 32-bit truecolor layout: blue, green,
/// red and one unused padding byte.
#[derive(Clone, Copy, Debug, PartialEq, Eq, Structural)]
pub struct Bgr8 {
    pub b: u8,
    pub g: u8,
    pub r: u8,
    pub pad: u8,
}

/// One pixel as interleaved red, green and blue bytes.
#[derive(Clone, Copy, Debug, PartialEq, Eq, Structural)]
pub struct Rgb8 {
    pub r: u8,
    pub g: u8,
    pub b: u8,
}

/// The RGB pixel with the colour channels of `p`; the padding byte is dropped.
pub open spec fn rgb_of(p: Bgr8) -> Rgb8 {
    Rgb8 { r: p.r, g: p.g, b: p.b }
}

impl From<Bgr8> for Rgb8 {
    fn from(bgr: Bgr8) -> (r: Rgb8)
        ensures
            r == rgb_of(bgr),
    {
        Rgb8 { r: bgr.r, g: bgr.g, b: bgr.b }
    }
}

impl vstd::std_specs::convert::FromSpecImpl<Bgr8> for Rgb8 {
    open spec fn obeys_from_spec() -> bool {
        true
    }

    open spec fn from_spec(bgr: Bgr8) -> Rgb8 {
        rgb_of(bgr)
    }
}

impl From<&Bgr8> for Rgb8 {
    fn from(bgr: &Bgr8) -> (r: Rgb8)
        ensures
            r == rgb_of(*bgr),
    {
        Rgb8 { r: bgr.r, g: bgr.g, b: bgr.b }
    }
}

impl vstd::std_specs::convert::FromSpecImpl<&Bgr8> for Rgb8 {
    open spec fn obeys_from_spec() -> bool {
        true
    }

    open spec fn from_spec(bgr: &Bgr8) -> Rgb8 {
        rgb_of(*bgr)
    }
}

/// The pixel held by bytes `4 * i .. 4 * i + 4` of a packed BGRX buffer.
pub open spec fn pixel_at(bytes: Seq<u8>, i: int) -> Bgr8 {
    Bgr8 { b: bytes[4 * i], g: bytes[4 * i + 1], r: bytes[4 * i + 2], pad: bytes[4 * i + 3] }
}

/// The first `count` pixels of a packed BGRX buffer.
pub open spec fn bgrx_pixels(bytes: Seq<u8>, count: nat) -> Seq<Bgr8> {
    Seq::new(count, |i: int| pixel_at(bytes, i))
}

/// Channel `k % 3` (red, green, then blue) of pixel `k / 3`.
pub open spec fn rgb_channel(pixels: Seq<Bgr8>, k: int) -> u8 {
    let p = pixels[k / 3];
    if k % 3 == 0 {
        p.r
    } else if k % 3 == 1 {
        p.g
    } else {
        p.b
    }
}

/// The pixels as interleaved RGB bytes, three per pixel, padding dropped.
pub open spec fn rgb_bytes(pixels: Seq<Bgr8>) -> Seq<u8> {
    Seq::new(3 * pixels.len(), |k: int| rgb_channel(pixels, k))
}

/// Reads the first `count` pixels of a packed BGRX buffer.
pub fn decode_bgrx(bytes: &[u8], count: usize) -> (r: Vec<Bgr8>)
    requires
        4 * count <= bytes@.len(),
    ensures
        r@ == bgrx_pixels(bytes@, count as nat),
{
    let len = bytes.len();
    let mut out: Vec<Bgr8> = Vec::with_capacity(count);
    let mut i: usize = 0;
    while i < count
        invariant
            i <= count,
            4 * count <= bytes@.len(),
            bytes@.len() == len,
            out@ == bgrx_pixels(bytes@, i as nat),
        decreases count - i,
    {
        let base: usize = 4 * i;
        let p = Bgr8 { b: bytes[base], g: bytes[base + 1], r: bytes[base + 2], pad: bytes[base + 3] };
        out.push(p);
        i = i + 1;
        assert(out@ =~= bgrx_pixels(bytes@, i as nat));
    }
    out
}

/// Converts packed BGRX pixels to interleaved RGB bytes, dropping the padding.
pub fn bgrx_to_rgb(pixels: &[Bgr8]) -> (r: Vec<u8>)
    ensures
        r@ == rgb_bytes(pixels@),
{
    let mut out: Vec<u8> = Vec::new();
    let mut i: usize = 0;
    while i < pixels.len()
        invariant
            i <= pixels@.len(),
            out@ == rgb_bytes(pixels@.subrange(0, i as int)),
        decreases pixels@.len() - i,
    {
        let p = pixels[i];
        proof {
            let before = pixels@.subrange(0, i as int);
            let after = pixels@.subrange(0, i + 1);
            assert forall|k: int| 0 <= k < 3 * i implies rgb_channel(after, k) == rgb_channel(before, k) by {
                assert(k / 3 < i);
            }
            assert(rgb_channel(after, 3 * i) == p.r);
            assert(rgb_channel(after, 3 * i + 1) == p.g);
            assert(rgb_channel(after, 3 * i + 2) == p.b);
        }
        out.push(p.r);
        out.push(p.g);
        out.push(p.b);
        i = i + 1;
        assert(out@ =~= rgb_bytes(pixels@.subrange(0, i as int)));
    }
    assert(pixels@.subrange(0, pixels@.len() as int) =~= pixels@);
    out
}

/// Converting a pixel keeps its red, green and blue bytes, in that order,
/// whatever its padding byte holds.
pub proof fn rgb_ignores_padding(b: u8, g: u8, r: u8, pad: u8)
    ensures
        rgb_bytes(seq![Bgr8 { b, g, r, pad }]) == seq![r, g, b],
        rgb_of(Bgr8 { b, g, r, pad }) == (Rgb8 { r, g, b }),
{
    let px = seq![Bgr8 { b, g, r, pad }];
    assert(rgb_channel(px, 0) == r);
    assert(rgb_channel(px, 1) == g);
    assert(rgb_channel(px, 2) == b);
    assert(rgb_bytes(px) =~= seq![r, g, b]);
}

} // verus!
