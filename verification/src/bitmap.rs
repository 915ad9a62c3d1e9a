//! A raster target and the extraction of its pixels.
//!
//! A raster surface stores each pixel as four bytes in the engine's native
//! order (blue, green, red, alpha), row after row, and may pad each row up to
//! its stride. Extraction drops the padding and puts the channels in the
//! order red, green, blue, alpha.

use vstd::prelude::*;
use vstd::arithmetic::div_mod::lemma_fundamental_div_mod_converse;
use crate::error::Error;

verus! {

/// The pixel layouts that a caller can ask for.
#[derive(Clone, Copy, Debug, PartialEq, Eq, Structural)]
pub enum ImageFormat {
    /// Three bytes per pixel: red, green, blue.
    Rgb,
    /// Four bytes per pixel: red, green, blue, alpha; alpha kept apart.
    RgbaSeparate,
    /// Four bytes per pixel: red, green, blue, alpha; colors scaled by alpha.
    RgbaPremul,
}

/// The largest width or height that the raster engine takes: it counts
/// pixels in signed 32-bit numbers.
pub const MAX_DIMENSION: usize = 0x7fff_ffff;

/// Where the engine keeps canonical channel `c` (0 red, 1 green, 2 blue,
/// 3 alpha) inside a native pixel.
pub open spec fn native_index(c: int) -> int {
    if c == 0 {
        2
    } else if c == 2 {
        0
    } else {
        c
    }
}

/// The mathematical content of a raster surface.
pub struct Surface {
    /// Pixels per row.
    pub width: nat,
    /// Number of rows.
    pub height: nat,
    /// Bytes from the start of one row to the start of the next.
    pub stride: nat,
    /// The native buffer.
    pub bytes: Seq<u8>,
}

impl Surface {
    /// Every row fits in the stride and every row lies in the buffer.
    pub open spec fn wf(self) -> bool {
        &&& 4 * self.width <= self.stride
        &&& self.stride * self.height <= self.bytes.len()
    }

    /// Canonical channel `c` of the pixel in column `x` of row `y`.
    pub open spec fn channel(self, x: int, y: int, c: int) -> u8 {
        self.bytes[y * self.stride + 4 * x + native_index(c)]
    }

    /// The position of channel `c` of pixel (`x`, `y`) in the packed output.
    pub open spec fn packed_index(self, x: int, y: int, c: int) -> int {
        4 * (self.width * y + x) + c
    }

    /// The packed pixels: row-major, four bytes per pixel in the order red,
    /// green, blue, alpha, no padding.
    pub open spec fn rgba_premul(self) -> Seq<u8> {
        Seq::new(
            4 * self.width * self.height,
            |i: int| self.channel((i / 4) % (self.width as int), (i / 4) / (self.width as int), i % 4),
        )
    }
}

/// Pixel (`x`, `y`), channel `c` is found again from its packed position.
pub proof fn lemma_packed_index(s: Surface, x: int, y: int, c: int)
    requires
        0 <= x < s.width,
        0 <= y < s.height,
        0 <= c < 4,
    ensures
        0 <= s.packed_index(x, y, c) < 4 * s.width * s.height,
        s.packed_index(x, y, c) / 4 == s.width * y + x,
        s.packed_index(x, y, c) % 4 == c,
        (s.width * y + x) % (s.width as int) == x,
        (s.width * y + x) / (s.width as int) == y,
{
    let w = s.width as int;
    let h = s.height as int;
    let p = w * y + x;
    assert(0 <= w * y) by (nonlinear_arith)
        requires
            0 <= w,
            0 <= y,
    ;
    assert(w * y + w <= w * h) by (nonlinear_arith)
        requires
            0 <= w,
            0 <= y < h,
    ;
    assert(4 * w * h == 4 * (w * h)) by (nonlinear_arith);
    assert(4 * p + c == p * 4 + c);
    lemma_fundamental_div_mod_converse(4 * p + c, 4, p, c);
    assert(p == y * w + x) by (nonlinear_arith)
        requires
            p == w * y + x,
    ;
    lemma_fundamental_div_mod_converse(p, w, y, x);
}

/// The packed output has four bytes for each pixel and holds, at the place
/// of each pixel, its red, green, blue and alpha bytes in that order,
/// whatever the stride of the surface.
pub proof fn lemma_channel_order(s: Surface, x: int, y: int, c: int)
    requires
        0 <= x < s.width,
        0 <= y < s.height,
        0 <= c < 4,
    ensures
        s.rgba_premul().len() == 4 * s.width * s.height,
        s.rgba_premul()[s.packed_index(x, y, c)] == s.bytes[y * s.stride + 4 * x + native_index(c)],
{
    lemma_packed_index(s, x, y, c);
}

/// A factory of raster targets. A software renderer needs no state.
pub struct Device {}

/// A raster surface whose pixels can be extracted.
pub struct BitmapTarget {
    width: usize,
    height: usize,
    stride: usize,
    data: Vec<u8>,
}

impl View for BitmapTarget {
    type V = Surface;

    closed spec fn view(&self) -> Surface {
        Surface {
            width: self.width as nat,
            height: self.height as nat,
            stride: self.stride as nat,
            bytes: self.data@,
        }
    }
}

/// Whether a buffer of `len` bytes holds `height` rows of `stride` bytes,
/// each wide enough for `width` pixels, within the engine's limits.
pub open spec fn surface_fits(width: int, height: int, stride: int, len: int) -> bool {
    &&& width <= MAX_DIMENSION
    &&& height <= MAX_DIMENSION
    &&& 4 * width <= stride
    &&& stride * height <= len
}

/// Whether both dimensions are within the engine's limit.
pub fn dimensions_fit(width: usize, height: usize) -> (r: bool)
    ensures
        r == (width <= MAX_DIMENSION && height <= MAX_DIMENSION),
{
    width <= MAX_DIMENSION && height <= MAX_DIMENSION
}

/// Whether a blank surface of `width` by `height` pixels can be made: both
/// within the engine's limit, and a row and the whole buffer of a size that
/// the machine can address.
pub open spec fn blank_fits(width: int, height: int) -> bool {
    &&& width <= MAX_DIMENSION
    &&& height <= MAX_DIMENSION
    &&& 4 * width <= usize::MAX
    &&& 4 * width * height <= usize::MAX
}

impl Device {
    /// A new device. It always succeeds.
    pub fn new() -> (r: Result<Device, Error>)
        ensures
            r is Ok,
    {
        Ok(Device {  })
    }

    /// A fresh target of `width` by `height` pixels: every byte zero, rows
    /// without padding. The engine takes no dimension above
    /// `MAX_DIMENSION` and no buffer whose size does not fit the machine;
    /// such a request fails with `BackendFailure`.
    pub fn bitmap_target(&mut self, width: usize, height: usize) -> (r: Result<BitmapTarget, Error>)
        ensures
            blank_fits(width as int, height as int) ==> (
            r matches Ok(t) && t@.width == width && t@.height == height && t@.stride == 4 * width
                && t@.bytes == Seq::new((4 * width * height) as nat, |i: int| 0u8) && t@.wf()),
            !blank_fits(width as int, height as int)
                ==> r == Err::<BitmapTarget, Error>(Error::BackendFailure),
    {
        if !dimensions_fit(width, height) {
            return Err(Error::BackendFailure);
        }
        let stride: usize = match width.checked_mul(4) {
            Some(n) => n,
            None => {
                return Err(Error::BackendFailure);
            },
        };
        let len: usize = match stride.checked_mul(height) {
            Some(n) => n,
            None => {
                assert(4 * width * height == stride * height);
                return Err(Error::BackendFailure);
            },
        };
        assert(4 * width * height == stride * height);
        let mut data: Vec<u8> = Vec::new();
        let mut i: usize = 0;
        while i < len
            invariant
                i <= len,
                data@ == Seq::new(i as nat, |k: int| 0u8),
            decreases len - i,
        {
            data.push(0u8);
            i = i + 1;
            assert(data@ =~= Seq::new(i as nat, |k: int| 0u8));
        }
        Ok(BitmapTarget { width, height, stride, data })
    }
}

impl BitmapTarget {
    #[verifier::type_invariant]
    spec fn well_formed(&self) -> bool {
        surface_fits(self.width as int, self.height as int, self.stride as int, self.data@.len() as int)
    }

    /// A target over the native buffer of a surface that the engine drew.
    /// A buffer that cannot hold `height` rows of `width` pixels at that
    /// stride is a failed read of the surface.
    pub fn from_surface(width: usize, height: usize, stride: usize, data: Vec<u8>) -> (r: Result<BitmapTarget, Error>)
        ensures
            surface_fits(width as int, height as int, stride as int, data@.len() as int) ==> (r matches Ok(t)
                && t@ == (Surface { width: width as nat, height: height as nat, stride: stride as nat, bytes: data@ })
                && t@.wf()),
            !surface_fits(width as int, height as int, stride as int, data@.len() as int) ==> r == Err::<
                BitmapTarget,
                Error,
            >(Error::BackendFailure),
    {
        if !dimensions_fit(width, height) {
            return Err(Error::BackendFailure);
        }
        let n: usize = data.len();
        match width.checked_mul(4) {
            Some(row) => {
                if row > stride {
                    return Err(Error::BackendFailure);
                }
            },
            None => {
                return Err(Error::BackendFailure);
            },
        }
        match stride.checked_mul(height) {
            Some(rows) => {
                if rows > n {
                    return Err(Error::BackendFailure);
                }
            },
            None => {
                return Err(Error::BackendFailure);
            },
        }
        Ok(BitmapTarget { width, height, stride, data })
    }

    /// Pixels per row.
    pub fn width(&self) -> (w: usize)
        ensures
            w == self@.width,
            self@.wf(),
    {
        proof {
            use_type_invariant(self);
        }
        self.width
    }

    /// Number of rows.
    pub fn height(&self) -> (h: usize)
        ensures
            h == self@.height,
            self@.wf(),
    {
        proof {
            use_type_invariant(self);
        }
        self.height
    }

    /// The packed pixels of the surface, which the call consumes.
    pub fn into_raw_pixels(self, fmt: ImageFormat) -> (r: Result<Vec<u8>, Error>)
        ensures
            fmt == ImageFormat::RgbaPremul ==> (r matches Ok(v) && v@ == self@.rgba_premul()),
            fmt != ImageFormat::RgbaPremul ==> r == Err::<Vec<u8>, Error>(Error::NotSupported),
    {
        self.get_raw_pixels(fmt)
    }

    /// The packed pixels of the surface. Only `RgbaPremul` can be had: any
    /// other format fails with `NotSupported` before a byte is read. The
    /// result has exactly four bytes per pixel, whatever the stride, and
    /// holds each pixel's channels in the order red, green, blue, alpha.
    pub fn get_raw_pixels(&self, fmt: ImageFormat) -> (r: Result<Vec<u8>, Error>)
        ensures
            self@.wf(),
            fmt == ImageFormat::RgbaPremul ==> (r matches Ok(v) && v@ == self@.rgba_premul() && v@.len()
                == self@.width * self@.height * 4 && forall|x: int, y: int, c: int|
                0 <= x < self@.width && 0 <= y < self@.height && 0 <= c < 4 ==> v@[self@.packed_index(x, y, c)]
                    == #[trigger] self@.channel(x, y, c)),
            fmt != ImageFormat::RgbaPremul ==> r == Err::<Vec<u8>, Error>(Error::NotSupported),
    {
        proof {
            use_type_invariant(self);
        }
        match fmt {
            ImageFormat::RgbaPremul => {},
            _ => {
                return Err(Error::NotSupported);
            },
        }
        let width: usize = self.width;
        let height: usize = self.height;
        let stride: usize = self.stride;
        let len: usize = self.data.len();
        let ghost s = self@;
        let mut raw_data: Vec<u8> = Vec::new();
        let mut y: usize = 0;
        while y < height
            invariant
                y <= height,
                s == self@,
                s.wf(),
                width == s.width,
                height == s.height,
                stride == s.stride,
                s.bytes == self.data@,
                4 * width <= stride,
                len == self.data@.len(),
                stride * height <= len,
                raw_data@.len() == 4 * (width * y),
                forall|i: int| 0 <= i < raw_data@.len() ==> raw_data@[i] == s.rgba_premul()[i],
            decreases height - y,
        {
            assert(0 <= y * stride && y * stride + stride <= stride * height) by (nonlinear_arith)
                requires
                    0 <= y < height,
                    0 <= stride,
            ;
            let src_off: usize = y * stride;
            let mut x: usize = 0;
            while x < width
                invariant
                    x <= width,
                    y < height,
                    s == self@,
                    s.wf(),
                    width == s.width,
                    height == s.height,
                    stride == s.stride,
                    s.bytes == self.data@,
                    4 * width <= stride,
                    src_off == y * stride,
                    len == self.data@.len(),
                    src_off + stride <= len,
                    raw_data@.len() == 4 * (width * y + x),
                    forall|i: int| 0 <= i < raw_data@.len() ==> raw_data@[i] == s.rgba_premul()[i],
                decreases width - x,
            {
                let p: usize = src_off + 4 * x;
                proof {
                    lemma_packed_index(s, x as int, y as int, 0);
                    lemma_packed_index(s, x as int, y as int, 1);
                    lemma_packed_index(s, x as int, y as int, 2);
                    lemma_packed_index(s, x as int, y as int, 3);
                }
                raw_data.push(self.data[p + 2]);
                raw_data.push(self.data[p + 1]);
                raw_data.push(self.data[p]);
                raw_data.push(self.data[p + 3]);
                x = x + 1;
            }
            proof {
                assert(width * y + width == width * (y + 1)) by (nonlinear_arith);
            }
            y = y + 1;
        }
        proof {
            assert(4 * (width * height) == 4 * width * height) by (nonlinear_arith);
            assert(4 * width * height == width * height * 4) by (nonlinear_arith);
            assert(raw_data@ =~= s.rgba_premul());
            assert forall|x: int, y: int, c: int|
                0 <= x < s.width && 0 <= y < s.height && 0 <= c < 4 implies raw_data@[s.packed_index(x, y, c)]
                == #[trigger] s.channel(x, y, c) by {
                lemma_packed_index(s, x, y, c);
            }
        }
        Ok(raw_data)
    }

    /// What the image codec is handed to write the surface as a file: the
    /// dimensions and the packed pixels, eight bits per channel. Without a
    /// codec (`codec_present` false) the request fails with `MissingFeature`
    /// and nothing is extracted.
    pub fn encoder_input(&self, codec_present: bool) -> (r: Result<(u32, u32, Vec<u8>), Error>)
        ensures
            codec_present ==> (r matches Ok(t) && t.0 == self@.width && t.1 == self@.height && t.2@
                == self@.rgba_premul()),
            !codec_present ==> r == Err::<(u32, u32, Vec<u8>), Error>(Error::MissingFeature),
    {
        if !codec_present {
            return Err(Error::MissingFeature);
        }
        proof {
            use_type_invariant(self);
        }
        match self.get_raw_pixels(ImageFormat::RgbaPremul) {
            Ok(image) => Ok((self.width as u32, self.height as u32, image)),
            Err(e) => Err(e),
        }
    }
}

} // verus!
