//! A captured video frame: its bytes and row stride, its resolution, and the
//! reading of one pixel.

use bytes::Bytes;
use vstd::prelude::*;

use crate::pod::Rectangle;

verus! {

#[verifier::external_type_specification]
#[verifier::external_body]
pub struct ExBytes(Bytes);

/// The bytes that a `Bytes` buffer holds.
pub uninterp spec fn bytes_contents(b: Bytes) -> Seq<u8>;

/// `Bytes::copy_from_slice`: a buffer holding a copy of `data`.
#[verifier::external_body]
pub(crate) fn bytes_copy_from_slice(data: &[u8]) -> (r: Bytes)
    ensures bytes_contents(r) == data@,
{
    Bytes::copy_from_slice(data)
}

/// `Bytes::len`: the number of bytes the buffer holds.
#[verifier::external_body]
fn bytes_len(b: &Bytes) -> (r: usize)
    ensures r == bytes_contents(*b).len(),
{
    b.len()
}

/// `Bytes` as `AsRef<[u8]>`: the bytes the buffer holds.
#[verifier::external_body]
fn bytes_as_slice(b: &Bytes) -> (r: &[u8])
    ensures r@ == bytes_contents(*b),
{
    b.as_ref()
}

/// The resolution of a frame of `len` bytes in rows of `stride` bytes, with
/// `dimensions` bytes per pixel: as many rows as whole strides fit, and as
/// many pixels per row as fit in the bytes of one row (the frame's bytes
/// shared among its rows); each as a `u32`, keeping the low 32 bits.
pub open spec fn frame_resolution(len: nat, stride: nat, dimensions: nat) -> Rectangle {
    let height = len / stride;
    let width = len / (height * dimensions);
    Rectangle { width: width as u32, height: height as u32 }
}

/// A frame of `h` rows of `stride` bytes each, with pixels of `d` bytes, is
/// `h` rows high and `stride / d` pixels wide (the padding of a row that
/// holds no whole pixel does not count).
pub proof fn lemma_resolution_of_rows(stride: nat, h: nat, d: nat)
    requires
        stride > 0,
        h > 0,
        d > 0,
    ensures
        frame_resolution(stride * h, stride, d) == (Rectangle {
            width: (stride / d) as u32,
            height: h as u32,
        }),
{
    let (st, hh, dd): (int, int, int) = (stride as int, h as int, d as int);
    let len: int = st * hh;
    assert(len == hh * st) by (nonlinear_arith)
        requires len == st * hh;
    vstd::arithmetic::div_mod::lemma_div_by_multiple(hh, st);
    assert(len / st == hh);
    vstd::arithmetic::div_mod::lemma_div_by_multiple(st, hh);
    assert(len / hh == st);
    vstd::arithmetic::div_mod::lemma_div_denominator(len, hh, dd);
    assert(len / (hh * dd) == st / dd);
}

/// The resolution of a frame can be computed: rows and pixels are not empty,
/// a whole row fits, and rows times pixel size fits in a `usize`.
pub open spec fn resolution_defined(len: nat, stride: nat, dimensions: nat) -> bool {
    &&& stride > 0
    &&& dimensions > 0
    &&& len >= stride
    &&& (len / stride) * dimensions <= usize::MAX
}

/// Why a pixel could not be read.
#[derive(Clone, Copy, Debug, PartialEq, Eq, Structural)]
pub enum PixelError {
    /// The column is not less than the width.
    XOutOfRange,
    /// The row is not less than the height.
    YOutOfRange,
}

impl PixelError {
    /// The message the error is reported with.
    pub fn message(&self) -> (r: &'static str)
        ensures
            *self == PixelError::XOutOfRange ==> r@ == "EL indice X sobrepasa el ancho"@,
            *self == PixelError::YOutOfRange ==> r@ == "EL indice Y sobrepasa el alto"@,
    {
        match self {
            PixelError::XOutOfRange => "EL indice X sobrepasa el ancho",
            PixelError::YOutOfRange => "EL indice Y sobrepasa el alto",
        }
    }
}

/// A frame: its bytes, and the length in bytes of each row (padding
/// included). `DIMENSIONS` is the number of bytes of a pixel.
pub struct VideoData<const DIMENSIONS: usize> {
    pub bytes: Bytes,
    pub stride: usize,
}

/// In a frame of `len` bytes with `h = len / stride` rows and
/// `w = len / (h * d)` pixels per row, the `d` bytes of pixel `(x, y)` lie
/// within the frame.
proof fn lemma_pixel_in_frame(len: int, stride: int, d: int, h: int, w: int, x: int, y: int)
    requires
        stride > 0,
        d > 0,
        h >= 1,
        h * stride <= len,
        w * (h * d) <= len,
        0 <= x < w,
        0 <= y < h,
    ensures
        0 <= y * stride,
        0 <= x * d,
        y * stride + x * d + d <= len,
{
    assert(0 <= y * stride) by (nonlinear_arith)
        requires y >= 0, stride > 0;
    assert(0 <= x * d) by (nonlinear_arith)
        requires x >= 0, d > 0;
    assert(y * stride <= (h - 1) * stride) by (nonlinear_arith)
        requires y <= h - 1, stride > 0;
    assert(x * d + d <= w * d) by (nonlinear_arith)
        requires x + 1 <= w, d > 0;
    assert(h * ((h - 1) * stride + w * d) <= h * len) by (nonlinear_arith)
        requires h * stride <= len, w * (h * d) <= len, h >= 1;
    assert((h - 1) * stride + w * d <= len) by (nonlinear_arith)
        requires h * ((h - 1) * stride + w * d) <= h * len, h >= 1;
}

impl<const DIMENSIONS: usize> VideoData<DIMENSIONS> {
    /// The bytes of the frame.
    pub open spec fn contents(&self) -> Seq<u8> {
        bytes_contents(self.bytes)
    }

    /// A frame of `bytes` in rows of `stride` bytes.
    pub fn new(bytes: Bytes, stride: usize) -> (r: Self)
        ensures
            r.bytes == bytes,
            r.stride == stride,
    {
        VideoData { bytes, stride }
    }

    /// The number of whole pixels in the bytes of the frame.
    pub fn size(&self) -> (r: usize)
        requires DIMENSIONS > 0,
        ensures r == self.contents().len() / (DIMENSIONS as nat),
    {
        bytes_len(&self.bytes) / DIMENSIONS
    }

    /// The width and height of the frame.
    pub fn resolution(&self) -> (r: Rectangle)
        requires
            resolution_defined(self.contents().len(), self.stride as nat, DIMENSIONS as nat),
        ensures
            r == frame_resolution(self.contents().len(), self.stride as nat, DIMENSIONS as nat),
    {
        let len = bytes_len(&self.bytes);
        let height = len / self.stride;
        assert(height >= 1) by (nonlinear_arith)
            requires len >= self.stride, self.stride > 0, height == len / self.stride;
        assert(height * DIMENSIONS >= 1) by (nonlinear_arith)
            requires height >= 1, DIMENSIONS > 0;
        let width = len / (height * DIMENSIONS);
        #[verifier::truncate]
        let w: u32 = width as u32;
        #[verifier::truncate]
        let h: u32 = height as u32;
        Rectangle { width: w, height: h }
    }

    /// The bytes of the pixel in column `x` and row `y`: the `DIMENSIONS`
    /// bytes that start at `y * stride + x * DIMENSIONS`. The column and row
    /// are compared with the width and height by their low 32 bits.
    pub fn pixel(&self, x: usize, y: usize) -> (r: Result<[u8; DIMENSIONS], PixelError>)
        requires
            resolution_defined(self.contents().len(), self.stride as nat, DIMENSIONS as nat),
            ({
                let res = frame_resolution(
                    self.contents().len(),
                    self.stride as nat,
                    DIMENSIONS as nat,
                );
                (x as u32) < res.width && (y as u32) < res.height ==> x <= u32::MAX && y
                    <= u32::MAX
            }),
        ensures
            ({
                let res = frame_resolution(
                    self.contents().len(),
                    self.stride as nat,
                    DIMENSIONS as nat,
                );
                let start = y * self.stride + x * DIMENSIONS;
                if res.width <= (x as u32) {
                    r == Err::<[u8; DIMENSIONS], PixelError>(PixelError::XOutOfRange)
                } else if res.height <= (y as u32) {
                    r == Err::<[u8; DIMENSIONS], PixelError>(PixelError::YOutOfRange)
                } else {
                    &&& start + DIMENSIONS <= self.contents().len()
                    &&& r matches Ok(p) && p@ == self.contents().subrange(
                        start,
                        start + DIMENSIONS,
                    )
                }
            }),
    {
        let rect = self.resolution();
        #[verifier::truncate]
        let x32: u32 = x as u32;
        #[verifier::truncate]
        let y32: u32 = y as u32;
        if rect.width <= x32 {
            return Err(PixelError::XOutOfRange);
        }
        if rect.height <= y32 {
            return Err(PixelError::YOutOfRange);
        }
        let data = bytes_as_slice(&self.bytes);
        let len = data.len();
        let height = len / self.stride;
        proof {
            let s = self.stride as int;
            let h = height as int;
            let d = DIMENSIONS as int;
            let w = len as int / (h * d);
            assert(h >= 1) by (nonlinear_arith)
                requires len >= s, s > 0, h == len as int / s;
            assert(h * s <= len) by (nonlinear_arith)
                requires s > 0, h == len as int / s;
            assert(h * d >= 1) by (nonlinear_arith)
                requires h >= 1, d >= 1;
            assert(w * (h * d) <= len) by (nonlinear_arith)
                requires h * d >= 1, w == len as int / (h * d);
            assert(x32 as int <= w);
            assert(y32 as int <= h);
            lemma_pixel_in_frame(len as int, s, d, h, w, x as int, y as int);
        }
        let index = y * self.stride + x * DIMENSIONS;
        let mut out: [u8; DIMENSIONS] = vstd::array::array_fill_for_copy_types(0u8);
        let mut i: usize = 0;
        while i < DIMENSIONS
            invariant
                i <= DIMENSIONS,
                len == data@.len(),
                index + DIMENSIONS <= data@.len(),
                out@.len() == DIMENSIONS,
                forall|j: int| 0 <= j < i ==> out@[j] == data@[index + j],
            decreases DIMENSIONS - i,
        {
            out.set(i, data[index + i]);
            i = i + 1;
        }
        assert(out@ =~= data@.subrange(index as int, index + DIMENSIONS));
        Ok(out)
    }
}

} // verus!
