//! Caller-side image adapter: a plain, row-major, three-channel pixel
//! buffer together with the checks that keep an empty or malformed frame
//! from ever reaching the inference boundary.

use vstd::prelude::*;

verus! {

/// Number of channels per pixel at the inference boundary.
pub const CHANNELS: usize = 3;

/// Channel order of a pixel buffer. The inference boundary expects `Rgb`;
/// capture devices commonly deliver `Bgr`.
#[derive(Clone, Copy, PartialEq, Eq, Structural, Debug)]
pub enum PixelFormat {
    Rgb,
    Bgr,
}

/// A caller-owned image: a row-major, tightly packed, three-channel pixel
/// buffer with its dimensions and channel order.
#[derive(Clone, Debug)]
pub struct ImageFrame {
    pub width: usize,
    pub height: usize,
    pub format: PixelFormat,
    pub data: Vec<u8>,
}

/// Index of the first channel of the pixel at column `x`, row `y`.
pub open spec fn pixel_base(width: int, x: int, y: int) -> int {
    (y * width + x) * CHANNELS
}

impl ImageFrame {
    /// The buffer length matches the dimensions exactly.
    pub open spec fn wf(self) -> bool {
        self.data@.len() == self.width * self.height * CHANNELS
    }

    /// A frame with no pixels.
    pub open spec fn spec_is_empty(self) -> bool {
        self.width == 0 || self.height == 0
    }

    /// The frame may cross the inference boundary: well formed, not empty,
    /// and already in the expected channel order.
    pub open spec fn accepted(self) -> bool {
        self.wf() && !self.spec_is_empty() && self.format == PixelFormat::Rgb
    }

    /// Accepts a frame whose buffer length matches its dimensions exactly;
    /// rejects every other combination.
    pub fn new(width: usize, height: usize, format: PixelFormat, data: Vec<u8>) -> (r: Option<
        ImageFrame,
    >)
        ensures
            match r {
                Some(f) => {
                    &&& f.width == width
                    &&& f.height == height
                    &&& f.format == format
                    &&& f.data@ == data@
                    &&& f.wf()
                },
                None => data@.len() != width * height * CHANNELS,
            },
    {
        let buflen = data.len();
        let expected = match width.checked_mul(height) {
            Some(wh) => match wh.checked_mul(CHANNELS) {
                Some(n) => n,
                None => {
                    proof {
                        lemma_buffer_never_matches(width as int, height as int, buflen as int);
                    }
                    return None;
                },
            },
            None => {
                proof {
                    lemma_buffer_never_matches(width as int, height as int, buflen as int);
                }
                return None;
            },
        };
        if buflen == expected {
            Some(ImageFrame { width, height, format, data })
        } else {
            None
        }
    }

    /// Reports whether the frame has no pixels.
    pub fn is_empty(&self) -> (r: bool)
        ensures
            r == self.spec_is_empty(),
    {
        self.width == 0 || self.height == 0
    }

    /// Distance in bytes from one row to the next.
    pub fn row_stride(&self) -> (r: usize)
        requires
            self.wf(),
            self.height > 0,
        ensures
            r == self.width * CHANNELS,
    {
        let len = self.data.len();
        proof {
            lemma_stride_fits(self.width as int, self.height as int, len as int);
        }
        self.width * CHANNELS
    }

    /// Reads the three channels of the pixel at column `x`, row `y`.
    pub fn pixel(&self, x: usize, y: usize) -> (r: (u8, u8, u8))
        requires
            self.wf(),
            x < self.width,
            y < self.height,
        ensures
            r.0 == self.data@[pixel_base(self.width as int, x as int, y as int)],
            r.1 == self.data@[pixel_base(self.width as int, x as int, y as int) + 1],
            r.2 == self.data@[pixel_base(self.width as int, x as int, y as int) + 2],
    {
        let len = self.data.len();
        proof {
            lemma_pixel_in_bounds(
                self.width as int,
                self.height as int,
                x as int,
                y as int,
                len as int,
            );
        }
        let base = (y * self.width + x) * CHANNELS;
        (self.data[base], self.data[base + 1], self.data[base + 2])
    }
}

/// When the pixel count overflows the address space, no buffer can match
/// the dimensions.
proof fn lemma_buffer_never_matches(width: int, height: int, len: int)
    requires
        0 <= width,
        0 <= height,
        len <= usize::MAX,
        width * height > usize::MAX || width * height * CHANNELS > usize::MAX,
    ensures
        len != width * height * CHANNELS,
{
    assert(width * height * CHANNELS >= width * height) by (nonlinear_arith)
        requires
            0 <= width,
            0 <= height,
    ;
}

/// A well-formed buffer bounds one row of it.
proof fn lemma_stride_fits(width: int, height: int, len: int)
    requires
        0 <= width,
        0 < height,
        len <= usize::MAX,
        len == width * height * CHANNELS,
    ensures
        width * CHANNELS <= len,
{
    assert(width * CHANNELS <= width * height * CHANNELS) by (nonlinear_arith)
        requires
            0 <= width,
            0 < height,
    ;
}

/// A pixel inside the dimensions addresses three bytes inside the buffer.
proof fn lemma_pixel_in_bounds(width: int, height: int, x: int, y: int, len: int)
    requires
        0 <= x < width,
        0 <= y < height,
        len == width * height * CHANNELS,
        len <= usize::MAX,
    ensures
        0 <= (y * width + x) * CHANNELS,
        (y * width + x) * CHANNELS + 2 < len,
        y * width + x < len,
{
    assert(0 <= y * width + x && (y * width + x) * CHANNELS + CHANNELS <= width * height * CHANNELS)
        by (nonlinear_arith)
        requires
            0 <= x < width,
            0 <= y < height,
    ;
    assert(y * width + x <= (y * width + x) * CHANNELS) by (nonlinear_arith)
        requires
            0 <= y * width + x,
    ;
}

impl ImageFrame {
    /// Returns the frame in `Rgb` order: a `Bgr` frame has the first and
    /// third channel of every pixel swapped, an `Rgb` frame is returned
    /// as it is.
    pub fn into_rgb(self) -> (r: ImageFrame)
        requires
            self.wf(),
        ensures
            r.wf(),
            r.width == self.width,
            r.height == self.height,
            r.format == PixelFormat::Rgb,
            r.data@.len() == self.data@.len(),
            self.format == PixelFormat::Rgb ==> r.data@ == self.data@,
            self.format == PixelFormat::Bgr ==> forall|p: int|
                0 <= p < self.width * self.height ==> (#[trigger] r.data@[CHANNELS * p])
                    == self.data@[CHANNELS * p + 2]
                    && r.data@[CHANNELS * p + 1] == self.data@[CHANNELS * p + 1]
                    && r.data@[CHANNELS * p + 2] == self.data@[CHANNELS * p],
    {
        match self.format {
            PixelFormat::Rgb => self,
            PixelFormat::Bgr => {
                let len = self.data.len();
                let pixels = len / CHANNELS;
                proof {
                    assert(pixels * CHANNELS == len && pixels == self.width * self.height)
                        by (nonlinear_arith)
                        requires
                            len == self.width * self.height * CHANNELS,
                            pixels == (len as int) / (CHANNELS as int),
                            0 <= self.width * self.height,
                    ;
                }
                let mut swapped: Vec<u8> = Vec::new();
                let mut i: usize = 0;
                let mut p: usize = 0;
                while p < pixels
                    invariant
                        len == self.data@.len(),
                        pixels * CHANNELS == len,
                        p <= pixels,
                        i == CHANNELS * p,
                        swapped@.len() == i,
                        forall|q: int|
                            0 <= q < p ==> (#[trigger] swapped@[CHANNELS * q])
                                == self.data@[CHANNELS * q + 2]
                                && swapped@[CHANNELS * q + 1] == self.data@[CHANNELS * q + 1]
                                && swapped@[CHANNELS * q + 2] == self.data@[CHANNELS * q],
                    decreases pixels - p,
                {
                    let ghost op = p as int;
                    let ghost before = swapped@;
                    swapped.push(self.data[i + 2]);
                    swapped.push(self.data[i + 1]);
                    swapped.push(self.data[i]);
                    proof {
                        assert(swapped@[CHANNELS * op] == self.data@[CHANNELS * op + 2]);
                        assert(swapped@[CHANNELS * op + 1] == self.data@[CHANNELS * op + 1]);
                        assert(swapped@[CHANNELS * op + 2] == self.data@[CHANNELS * op]);
                        assert(forall|q: int|
                            0 <= q < op ==> (#[trigger] swapped@[CHANNELS * q]) == before[CHANNELS
                                * q] && swapped@[CHANNELS * q + 1] == before[CHANNELS * q + 1]
                                && swapped@[CHANNELS * q + 2] == before[CHANNELS * q + 2]);
                    }
                    i = i + 3;
                    p = p + 1;
                }
                ImageFrame {
                    width: self.width,
                    height: self.height,
                    format: PixelFormat::Rgb,
                    data: swapped,
                }
            },
        }
    }
}

/// The adapter's gate: reports whether a frame may cross the inference
/// boundary.
pub fn frame_accepted(img: &ImageFrame) -> (r: bool)
    ensures
        r == img.accepted(),
{
    if img.width == 0 || img.height == 0 {
        return false;
    }
    if img.format != PixelFormat::Rgb {
        return false;
    }
    let buflen = img.data.len();
    let expected = match img.width.checked_mul(img.height) {
        Some(wh) => match wh.checked_mul(CHANNELS) {
            Some(n) => n,
            None => {
                proof {
                    lemma_buffer_never_matches(img.width as int, img.height as int, buflen as int);
                }
                return false;
            },
        },
        None => {
            proof {
                lemma_buffer_never_matches(img.width as int, img.height as int, buflen as int);
            }
            return false;
        },
    };
    buflen == expected
}

} // verus!
