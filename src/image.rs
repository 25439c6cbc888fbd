//! Frames: a buffer of pixel rows with its geometry, as the server or the
//! client laid it out.

use vstd::prelude::*;
use crate::display::{Display, Region};
use crate::pixel::{bgrx_pixels, bgrx_to_rgb, decode_bgrx, rgb_bytes, Bgr8};
use crate::png::{encode_png_rgb8, png_rgb8};

verus! {

/// The value an [`Image`] stands for: its size in pixels, its depth in
/// bits, the distance in bytes from one row to the next, and its buffer.
pub ghost struct ImageView {
    pub width: int,
    pub height: int,
    pub depth: int,
    pub bytes_per_line: int,
    pub data: Seq<u8>,
}

impl ImageView {
    /// Sizes are non-negative and the buffer holds every row.
    pub open spec fn wf(self) -> bool {
        &&& 0 <= self.width
        &&& 0 <= self.height
        &&& self.data.len() == self.bytes_per_line * self.height
    }

    /// The rows hold four bytes per pixel and no padding: the packed BGRX
    /// layout of 32 bits per pixel.
    pub open spec fn packed(self) -> bool {
        self.bytes_per_line == 4 * self.width
    }

    /// The raw byte view lies within the buffer.
    pub open spec fn bytes_fit(self) -> bool {
        &&& 0 <= self.depth
        &&& self.byte_len() <= self.data.len()
    }

    /// The number of pixels.
    pub open spec fn pixel_count(self) -> int {
        self.width * self.height
    }

    /// The length of the raw byte view: `depth / 8` bytes for each pixel.
    pub open spec fn byte_len(self) -> int {
        self.width * self.height * (self.depth / 8)
    }

    /// The pixels of a packed frame, row after row.
    pub open spec fn pixels(self) -> Seq<Bgr8> {
        bgrx_pixels(self.data, self.pixel_count() as nat)
    }

    /// The raw byte view.
    pub open spec fn bytes(self) -> Seq<u8> {
        self.data.subrange(0, self.byte_len())
    }

    /// The frame after its raw byte view was overwritten with `b`.
    pub open spec fn with_bytes(self, b: Seq<u8>) -> ImageView {
        ImageView { data: b + self.data.subrange(self.byte_len(), self.data.len() as int), ..self }
    }
}

/// Why a frame could not be saved.
#[derive(Clone, Copy, Debug, PartialEq, Eq, Structural)]
pub enum SaveError {
    /// The encoder refused the frame.
    EncodingFailed,
}

/// The result of saving a frame, once the encoder has answered.
pub fn encoding_outcome(encoded: Result<Vec<u8>, image::ImageError>) -> (r: Result<Vec<u8>, SaveError>)
    ensures
        encoded is Err <==> r == Err::<Vec<u8>, SaveError>(SaveError::EncodingFailed),
        encoded matches Ok(bytes) ==> r matches Ok(out) && out@ == bytes@,
{
    match encoded {
        Ok(bytes) => Ok(bytes),
        Err(_) => Err(SaveError::EncodingFailed),
    }
}

/// A frame of pixels: a captured region of the screen or a buffer made by
/// the client.
pub struct Image {
    width: i32,
    height: i32,
    depth: i32,
    bytes_per_line: i32,
    data: Vec<u8>,
}

impl View for Image {
    type V = ImageView;

    closed spec fn view(&self) -> ImageView {
        ImageView {
            width: self.width as int,
            height: self.height as int,
            depth: self.depth as int,
            bytes_per_line: self.bytes_per_line as int,
            data: self.data@,
        }
    }
}

/// A packed BGRX buffer with this many pixels can be held in memory, and
/// its rows and height fit the server's signed fields.
pub open spec fn fits_frame(width: u32, height: u32) -> bool {
    &&& width as int * height as int * 4 <= usize::MAX
    &&& 4 * width as int <= i32::MAX
    &&& height as int <= i32::MAX
}

/// The image that the server returned for a capture, its pixel rows copied
/// into `data`.
pub struct CaptureReply {
    pub width: i32,
    pub height: i32,
    pub depth: i32,
    pub bytes_per_line: i32,
    pub data: Vec<u8>,
}

/// A reply is a frame of the requested region: the requested size, with a
/// buffer that holds all of its rows.
pub open spec fn reply_fits(region: Region, reply: CaptureReply) -> bool {
    &&& reply.width as int == region.width as int
    &&& reply.height as int == region.height as int
    &&& reply.data@.len() == reply.bytes_per_line as int * reply.height as int
}

/// The frame that a capture of `region` gives for `reply`: none when the
/// server failed, or when its reply is not a frame of that size.
pub open spec fn capture_frame(region: Region, reply: Option<CaptureReply>) -> Option<ImageView> {
    match reply {
        Some(rep) => if reply_fits(region, rep) {
            Some(
                ImageView {
                    width: region.width as int,
                    height: region.height as int,
                    depth: rep.depth as int,
                    bytes_per_line: rep.bytes_per_line as int,
                    data: rep.data@,
                },
            )
        } else {
            None
        },
        None => None,
    }
}

proof fn lemma_packed_len(v: ImageView)
    requires
        v.wf(),
        v.packed(),
    ensures
        0 <= v.pixel_count(),
        4 * v.pixel_count() == v.data.len(),
        0 <= v.depth <= 32 ==> v.bytes_fit() && 0 <= v.byte_len(),
{
    let n = v.width * v.height;
    assert(0 <= n && 4 * n == v.bytes_per_line * v.height) by (nonlinear_arith)
        requires
            0 <= v.width,
            0 <= v.height,
            n == v.width * v.height,
            v.bytes_per_line == 4 * v.width,
    ;
    if 0 <= v.depth <= 32 {
        let d = v.depth / 8;
        assert(0 <= n * d <= n * 4) by (nonlinear_arith)
            requires
                0 <= n,
                0 <= d <= 4,
        ;
        assert(v.width * v.height * (v.depth / 8) == n * d);
    }
}

impl Image {
    /// A zero-filled frame of `width` by `height` pixels at depth 24, in
    /// the packed BGRX layout.
    pub fn empty(display: &Display, width: u32, height: u32) -> (r: Image)
        requires
            fits_frame(width, height),
        ensures
            r@.wf(),
            r@.packed(),
            r@.bytes_fit(),
            r@.width == width,
            r@.height == height,
            r@.depth == 24,
            r@.data == Seq::new((width * height * 4) as nat, |i: int| 0u8),
    {
        let n: usize = width as usize * height as usize * 4;
        let data: Vec<u8> = vec![0u8; n];
        assert(data@ =~= Seq::new(n as nat, |i: int| 0u8));
        let r = Image { width: width as i32, height: height as i32, depth: 24, bytes_per_line: width as i32 * 4, data };
        assert(width as int * height as int * 4 == (4 * width as int) * height as int) by (nonlinear_arith);
        proof {
            lemma_packed_len(r@);
        }
        r
    }

    /// A zero-filled frame of the given geometry.
    pub(crate) fn blank(width: i32, height: i32, depth: i32, bytes_per_line: i32) -> (r: Image)
        requires
            0 <= width,
            0 <= height,
            0 <= bytes_per_line as int * height as int <= usize::MAX,
        ensures
            r@.wf(),
            r@.width == width,
            r@.height == height,
            r@.depth == depth,
            r@.bytes_per_line == bytes_per_line,
    {
        let n: usize = if height == 0 {
            0
        } else {
            assert(0 <= bytes_per_line) by (nonlinear_arith)
                requires
                    0 <= bytes_per_line as int * height as int,
                    height > 0,
            ;
            bytes_per_line as usize * height as usize
        };
        let data: Vec<u8> = vec![0u8; n];
        Image { width, height, depth, bytes_per_line, data }
    }

    /// A frame at depth 24 over pixel data supplied by the caller, which
    /// must hold four bytes per pixel.
    pub fn from_raw_parts(display: &Display, data: Vec<u8>, width: u32, height: u32) -> (r: Image)
        requires
            fits_frame(width, height),
            data@.len() == width * height * 4,
        ensures
            r@.wf(),
            r@.packed(),
            r@.bytes_fit(),
            r@ == (ImageView {
                width: width as int,
                height: height as int,
                depth: 24,
                bytes_per_line: 4 * width as int,
                data: data@,
            }),
    {
        let r = Image { width: width as i32, height: height as i32, depth: 24, bytes_per_line: width as i32 * 4, data };
        assert(width as int * height as int * 4 == (4 * width as int) * height as int) by (nonlinear_arith);
        proof {
            lemma_packed_len(r@);
        }
        r
    }

    /// The frame that a capture of `region` produced: `None` stands for a
    /// capture that the server failed. A reply of another size than the
    /// region's, or whose buffer does not hold its rows, fails too.
    pub fn from_capture(region: Region, reply: Option<CaptureReply>) -> (r: Result<Image, ()>)
        ensures
            r is Ok <==> capture_frame(region, reply) is Some,
            r matches Ok(img) ==> capture_frame(region, reply) == Some(img@) && img@.wf(),
    {
        match reply {
            None => Err(()),
            Some(rep) => {
                if rep.width as i64 != region.width as i64 || rep.height as i64 != region.height as i64 {
                    return Err(());
                }
                let bpl = rep.bytes_per_line as i64;
                let h = rep.height as i64;
                assert(-0x4000_0000_0000_0000 <= bpl * h <= 0x4000_0000_0000_0000) by (nonlinear_arith)
                    requires
                        -0x8000_0000 <= bpl <= 0x8000_0000,
                        0 <= h <= 0x8000_0000,
                ;
                let size = bpl * h;
                if size < 0 || rep.data.len() as u64 != size as u64 {
                    return Err(());
                }
                Ok(Image {
                    width: rep.width,
                    height: rep.height,
                    depth: rep.depth,
                    bytes_per_line: rep.bytes_per_line,
                    data: rep.data,
                })
            },
        }
    }

    pub fn width(&self) -> (r: i32)
        ensures
            r == self@.width,
    {
        self.width
    }

    pub fn height(&self) -> (r: i32)
        ensures
            r == self@.height,
    {
        self.height
    }

    /// Bits per pixel that carry colour.
    pub fn depth(&self) -> (r: i32)
        ensures
            r == self@.depth,
    {
        self.depth
    }

    /// Bytes from the start of one row to the start of the next.
    pub fn bytes_per_line(&self) -> (r: i32)
        ensures
            r == self@.bytes_per_line,
    {
        self.bytes_per_line
    }

    /// The pixels of a packed frame, row after row: one for each of
    /// `width * height`.
    pub fn as_raw_slice(&self) -> (r: Vec<Bgr8>)
        requires
            self@.wf(),
            self@.packed(),
        ensures
            r@ == self@.pixels(),
            r@.len() == self@.pixel_count(),
    {
        proof {
            lemma_packed_len(self@);
        }
        let count: usize = self.data.len() / 4;
        decode_bgrx(self.data.as_slice(), count)
    }

    /// Length of the raw byte view.
    fn byte_len(&self) -> (r: usize)
        requires
            self@.wf(),
            self@.bytes_fit(),
        ensures
            r == self@.byte_len(),
            r <= self@.data.len(),
    {
        let total = self.data.len();
        let w = self.width as u64;
        let h = self.height as u64;
        let per_pixel = (self.depth / 8) as u64;
        assert(w * h <= i32::MAX * i32::MAX) by (nonlinear_arith)
            requires
                w <= i32::MAX,
                h <= i32::MAX,
        ;
        let count = w * h;
        let ghost v = self@;
        assert(count * per_pixel == v.byte_len()) by (nonlinear_arith)
            requires
                count == v.width * v.height,
                per_pixel == v.depth / 8,
        ;
        (count * per_pixel) as usize
    }

    /// The raw bytes: `depth / 8` for each pixel, from the start of the buffer.
    pub fn as_bytes(&self) -> (r: &[u8])
        requires
            self@.wf(),
            self@.bytes_fit(),
        ensures
            r@ == self@.bytes(),
            r@.len() == self@.byte_len(),
    {
        let len = self.byte_len();
        let (head, _) = self.data.as_slice().split_at(len);
        head
    }

    /// The raw bytes, writable: what is written there is what
    /// [`Image::as_bytes`] reads back.
    pub fn as_bytes_mut(&mut self) -> (r: &mut [u8])
        requires
            old(self)@.wf(),
            old(self)@.bytes_fit(),
        ensures
            r@ == old(self)@.bytes(),
            final(self)@ == old(self)@.with_bytes(final(r)@),
    {
        let len = self.byte_len();
        let (head, _) = self.data.as_mut_slice().split_at_mut(len);
        head
    }

    /// The pixels of a packed frame as interleaved RGB bytes, three per
    /// pixel, padding dropped.
    pub fn to_rgb8(&self) -> (r: Vec<u8>)
        requires
            self@.wf(),
            self@.packed(),
        ensures
            r@ == rgb_bytes(self@.pixels()),
            r@.len() == 3 * self@.pixel_count(),
    {
        let pixels = self.as_raw_slice();
        bgrx_to_rgb(pixels.as_slice())
    }

    /// A packed frame encoded as a PNG stream of 8-bit RGB pixels. Every
    /// frame with pixels is encoded; one of zero width or height is refused.
    pub fn save_to_memory(self) -> (r: Result<Vec<u8>, SaveError>)
        requires
            self@.wf(),
            self@.packed(),
        ensures
            self@.width > 0 && self@.height > 0 ==> (r matches Ok(bytes) && bytes@ == png_rgb8(
                rgb_bytes(self@.pixels()),
                self@.width as u32,
                self@.height as u32,
            )),
            self@.width == 0 || self@.height == 0 ==> r == Err::<Vec<u8>, SaveError>(SaveError::EncodingFailed),
    {
        let rgb = self.to_rgb8();
        let encoded = encode_png_rgb8(rgb.as_slice(), self.width as u32, self.height as u32);
        encoding_outcome(encoded)
    }

    /// Overwrites the whole pixel buffer with `bytes`, keeping the geometry
    /// and the buffer itself.
    pub fn load_bytes(&mut self, bytes: &[u8])
        requires
            old(self)@.wf(),
            bytes@.len() == old(self)@.data.len(),
        ensures
            final(self)@ == (ImageView { data: bytes@, ..old(self)@ }),
    {
        let mut i: usize = 0;
        while i < bytes.len()
            invariant
                i <= bytes@.len(),
                bytes@.len() == self.data@.len(),
                self.width == old(self).width,
                self.height == old(self).height,
                self.depth == old(self).depth,
                self.bytes_per_line == old(self).bytes_per_line,
                forall|k: int| 0 <= k < i ==> self.data@[k] == bytes@[k],
            decreases bytes@.len() - i,
        {
            self.data.set(i, bytes[i]);
            i = i + 1;
        }
        assert(self.data@ =~= bytes@);
    }
}

/// A captured frame has the size of the captured region; its raw byte view
/// holds `depth / 8` bytes for each pixel, and when it is packed it holds
/// one BGRX pixel for each pixel of the region.
pub proof fn capture_shape(region: Region, reply: Option<CaptureReply>)
    requires
        capture_frame(region, reply) is Some,
    ensures
        ({
            let v = capture_frame(region, reply).unwrap();
            &&& v.wf()
            &&& v.width == region.width
            &&& v.height == region.height
            &&& v.pixel_count() == region.width as int * region.height as int
            &&& v.packed() ==> v.pixels().len() == region.width as int * region.height as int
            &&& v.bytes_fit() ==> v.bytes().len() == region.width as int * region.height as int * (v.depth / 8)
        }),
{
    let v = capture_frame(region, reply).unwrap();
    assert(v.byte_len() == v.pixel_count() * (v.depth / 8)) by (nonlinear_arith)
        requires
            v.byte_len() == v.width * v.height * (v.depth / 8),
            v.pixel_count() == v.width * v.height,
    ;
    if v.bytes_fit() {
        assert(0 <= v.pixel_count()) by (nonlinear_arith)
            requires
                0 <= v.width,
                0 <= v.height,
                v.pixel_count() == v.width * v.height,
        ;
        assert(0 <= v.byte_len()) by (nonlinear_arith)
            requires
                0 <= v.pixel_count(),
                0 <= v.depth,
                v.byte_len() == v.pixel_count() * (v.depth / 8),
        ;
    }
}

/// A capture of the whole screen of `d` gives a frame of exactly the
/// screen size recorded when `d` was opened.
pub proof fn screen_capture_shape(d: Display, reply: Option<CaptureReply>)
    requires
        capture_frame(Region { x: 0, y: 0, width: d.width, height: d.height }, reply) is Some,
    ensures
        ({
            let v = capture_frame(Region { x: 0, y: 0, width: d.width, height: d.height }, reply).unwrap();
            &&& v.width == d.width
            &&& v.height == d.height
            &&& v.pixel_count() == d.width as int * d.height as int
            &&& v.packed() ==> v.pixels().len() == d.width as int * d.height as int
        }),
{
    capture_shape(Region { x: 0, y: 0, width: d.width, height: d.height }, reply);
}

/// Bytes written through the raw byte view are read back unchanged, and
/// the frame keeps its geometry and well-formedness.
pub proof fn bytes_round_trip(v: ImageView, b: Seq<u8>)
    requires
        v.wf(),
        v.bytes_fit(),
        b.len() == v.byte_len(),
    ensures
        v.with_bytes(b).wf(),
        v.with_bytes(b).bytes_fit(),
        v.with_bytes(b).bytes() == b,
        v.with_bytes(b).width == v.width,
        v.with_bytes(b).height == v.height,
        v.with_bytes(b).depth == v.depth,
{
    assert(0 <= v.byte_len()) by (nonlinear_arith)
        requires
            0 <= v.width,
            0 <= v.height,
            0 <= v.depth,
            v.byte_len() == v.width * v.height * (v.depth / 8),
    ;
    let w = v.with_bytes(b);
    assert(w.data.len() == v.data.len());
    assert(w.bytes() =~= b);
}

/// Writing a pattern into a fresh zero-filled frame through its raw byte
/// view and reading it back gives the pattern.
pub proof fn empty_frame_round_trip(width: u32, height: u32, b: Seq<u8>)
    requires
        fits_frame(width, height),
        b.len() == width as int * height as int * 3,
    ensures
        ({
            let v = ImageView {
                width: width as int,
                height: height as int,
                depth: 24,
                bytes_per_line: 4 * width as int,
                data: Seq::new((width * height * 4) as nat, |i: int| 0u8),
            };
            v.with_bytes(b).bytes() == b
        }),
{
    let v = ImageView {
        width: width as int,
        height: height as int,
        depth: 24,
        bytes_per_line: 4 * width as int,
        data: Seq::new((width * height * 4) as nat, |i: int| 0u8),
    };
    assert(v.data.len() == v.bytes_per_line * v.height) by (nonlinear_arith)
        requires
            v.data.len() == width as int * height as int * 4,
            v.bytes_per_line == 4 * width as int,
            v.height == height as int,
    ;
    lemma_packed_len(v);
    bytes_round_trip(v, b);
}

} // verus!
