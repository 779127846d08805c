use vstd::prelude::*;

use crate::error::{Action, VideoError};

verus! {

/// The largest number of pixels a frame buffer holds.
pub const MAX_PIXELS: i64 = 268435456;

/// The pixel layouts that frames are allocated in.
#[derive(Clone, Copy, Debug, PartialEq, Eq, Structural)]
pub enum PixelFormat {
    /// Packed 8-bit red, green and blue, three bytes per pixel.
    Rgb24,
    /// Planar luma at full size followed by two chroma planes at half width and
    /// half height (rounded up).
    Yuv420p,
}

/// Width and height that a frame buffer can be allocated for.
pub open spec fn valid_dims(width: int, height: int) -> bool {
    0 < width && 0 < height && width * height <= MAX_PIXELS
}

/// Half of a dimension, rounded up: the size of a chroma plane side.
pub open spec fn half_up(n: int) -> int {
    (n + 1) / 2
}

/// The number of bytes that a whole frame buffer of this geometry holds, all
/// planes one after the other, each row without padding.
pub open spec fn buffer_len(format: PixelFormat, width: int, height: int) -> int {
    match format {
        PixelFormat::Rgb24 => 3 * (width * height),
        PixelFormat::Yuv420p => width * height + 2 * (half_up(width) * half_up(height)),
    }
}

/// What a frame holds.
pub ghost struct FrameView {
    pub format: PixelFormat,
    pub width: int,
    pub height: int,
    /// The bytes of all planes, one after the other.
    pub data: Seq<u8>,
    /// The presentation timestamp.
    pub pts: int,
}

/// A buffer that holds one picture to be encoded.
pub struct Frame {
    format: PixelFormat,
    width: i32,
    height: i32,
    data: Vec<u8>,
    pts: i64,
}

impl View for Frame {
    type V = FrameView;

    closed spec fn view(&self) -> FrameView {
        FrameView {
            format: self.format,
            width: self.width as int,
            height: self.height as int,
            data: self.data@,
            pts: self.pts as int,
        }
    }
}

impl FrameView {
    /// The buffer is sized exactly for its format and geometry.
    pub open spec fn wf(self) -> bool {
        &&& valid_dims(self.width, self.height)
        &&& self.data.len() == buffer_len(self.format, self.width, self.height)
    }
}

proof fn lemma_buffer_len_bounds(format: PixelFormat, width: int, height: int)
    requires
        valid_dims(width, height),
    ensures
        0 < buffer_len(format, width, height) <= 3 * (16384 * 16384),
        format == PixelFormat::Rgb24 ==> buffer_len(format, width, height) == 3 * (width * height),
        width <= MAX_PIXELS,
        height <= MAX_PIXELS,
        half_up(width) * half_up(height) <= MAX_PIXELS,
{
    let m = MAX_PIXELS as int;
    assert(width <= width * height && height <= width * height) by (nonlinear_arith)
        requires
            0 < width,
            0 < height,
    ;
    let hw = half_up(width);
    let hh = half_up(height);
    assert(0 < hw * hh) by (nonlinear_arith)
        requires
            0 < hw,
            0 < hh,
    ;
    assert((2 * hw) * (2 * hh) <= (width + 1) * (height + 1)) by (nonlinear_arith)
        requires
            0 <= 2 * hw <= width + 1,
            0 <= 2 * hh <= height + 1,
    ;
    assert((width + 1) * (height + 1) == width * height + width + height + 1) by (nonlinear_arith);
    assert((2 * hw) * (2 * hh) == 4 * (hw * hh)) by (nonlinear_arith);
    assert(m == 16384 * 16384);
}

impl Frame {
    /// Allocates a frame buffer sized for the format and geometry, filled with
    /// zero bytes, with timestamp zero.
    pub fn new(format: PixelFormat, width: i32, height: i32) -> (r: Result<Frame, VideoError>)
        ensures
            r is Ok <==> valid_dims(width as int, height as int),
            r is Err ==> r == Err::<Frame, VideoError>(
                VideoError::AllocationFailure { action: Action::AllocatingFrameBuffer, code: 0 },
            ),
            r matches Ok(f) ==> f@ == (FrameView {
                format,
                width: width as int,
                height: height as int,
                data: Seq::new(buffer_len(format, width as int, height as int) as nat, |i| 0u8),
                pts: 0,
            }),
    {
        if width <= 0 || height <= 0 {
            return Err(VideoError::AllocationFailure { action: Action::AllocatingFrameBuffer, code: 0 });
        }
        proof {
            assert((width as int) * (height as int) <= 0x4000_0000_0000_0000) by (nonlinear_arith)
                requires
                    0 < width <= 0x8000_0000,
                    0 < height <= 0x8000_0000,
            ;
        }
        if (width as i64) * (height as i64) > MAX_PIXELS {
            return Err(VideoError::AllocationFailure { action: Action::AllocatingFrameBuffer, code: 0 });
        }
        proof {
            lemma_buffer_len_bounds(format, width as int, height as int);
        }
        let w = width as usize;
        let h = height as usize;
        let len: usize = match format {
            PixelFormat::Rgb24 => 3 * (w * h),
            PixelFormat::Yuv420p => {
                let cw = (w + 1) / 2;
                let ch = (h + 1) / 2;
                w * h + 2 * (cw * ch)
            },
        };
        let data = vec![0u8; len];
        let f = Frame { format, width, height, data, pts: 0 };
        assert(f@.data =~= Seq::new(buffer_len(format, width as int, height as int) as nat, |i| 0u8));
        Ok(f)
    }
}

impl Frame {
    /// The width of the frame in pixels.
    pub fn width(&self) -> (r: i32)
        ensures
            r as int == self@.width,
    {
        self.width
    }

    /// The height of the frame in pixels.
    pub fn height(&self) -> (r: i32)
        ensures
            r as int == self@.height,
    {
        self.height
    }

    /// The pixel layout of the frame.
    pub fn pixel_format(&self) -> (r: PixelFormat)
        ensures
            r == self@.format,
    {
        self.format
    }

    /// The presentation timestamp of the frame.
    pub fn pts(&self) -> (r: i64)
        ensures
            r as int == self@.pts,
    {
        self.pts
    }

    /// Sets the presentation timestamp; nothing else changes.
    pub fn set_pts(&mut self, pts: i64)
        ensures
            final(self)@ == (FrameView { pts: pts as int, ..old(self)@ }),
    {
        self.pts = pts;
    }

    /// The bytes of all planes, one after the other, each row without padding.
    pub fn data(&self) -> (r: &Vec<u8>)
        ensures
            r@ == self@.data,
    {
        &self.data
    }

    /// Fills the frame with the pixels of an RGB image of `width` by `height`
    /// pixels, whose first `3 * width * height` samples hold packed red, green
    /// and blue bytes row after row.
    ///
    /// Fails with `SizeMismatch` when the source geometry differs from the
    /// frame's, and then with `UnsupportedFormat` when the frame is not packed
    /// RGB. The timestamp is not touched, and on failure nothing is.
    pub fn fill_from_image_rgb(&mut self, width: u32, height: u32, samples: &Vec<u8>) -> (r: Result<(), VideoError>)
        requires
            old(self)@.wf(),
            samples@.len() >= 3 * (width * height),
        ensures
            final(self)@.wf(),
            r == rgb_fill_result(old(self)@, width as int, height as int),
            r is Err ==> final(self)@ == old(self)@,
            r is Ok ==> final(self)@ == (FrameView {
                data: samples@.subrange(0, 3 * (width * height)),
                ..old(self)@
            }),
    {
        if width as i64 != self.width as i64 || height as i64 != self.height as i64 {
            return Err(VideoError::SizeMismatch);
        }
        if self.format != PixelFormat::Rgb24 {
            return Err(VideoError::UnsupportedFormat);
        }
        proof {
            lemma_buffer_len_bounds(self.format, self.width as int, self.height as int);
        }
        let n: usize = 3 * ((width as usize) * (height as usize));
        let ghost old_view = self@;
        let mut i: usize = 0;
        while i < n
            invariant
                n == self.data@.len(),
                n <= samples@.len(),
                i <= n,
                self@ == (FrameView { data: self@.data, ..old_view }),
                forall|k: int| 0 <= k < i ==> self.data@[k] == samples@[k],
            decreases n - i,
        {
            self.data.set(i, samples[i]);
            i = i + 1;
        }
        assert(self.data@ =~= samples@.subrange(0, n as int));
        Ok(())
    }

}

/// How filling a frame from packed RGB of the given geometry ends.
pub open spec fn rgb_fill_result(f: FrameView, width: int, height: int) -> Result<(), VideoError> {
    if width != f.width || height != f.height {
        Err(VideoError::SizeMismatch)
    } else if f.format != PixelFormat::Rgb24 {
        Err(VideoError::UnsupportedFormat)
    } else {
        Ok(())
    }
}

/// The pixel layouts of a cairo image surface.
#[derive(Clone, Copy, Debug, PartialEq, Eq, Structural)]
pub enum SurfaceFormat {
    Invalid,
    ARgb32,
    Rgb24,
    A8,
    A1,
    Rgb16_565,
    Rgb30,
    /// A layout with no name of its own here.
    Other,
}

/// The layouts whose pixels are 32-bit words holding red, green and blue in
/// their lower three bytes.
pub open spec fn is_rgb_word_layout(format: SurfaceFormat) -> bool {
    format == SurfaceFormat::Rgb24 || format == SurfaceFormat::ARgb32
}

/// The contents of a cairo image surface: its layout, geometry, row stride in
/// bytes, the byte order of its 32-bit pixel words and its bytes.
pub struct CairoSurface {
    pub format: SurfaceFormat,
    pub width: i32,
    pub height: i32,
    pub stride: i32,
    pub big_endian: bool,
    pub data: Vec<u8>,
}

impl CairoSurface {
    /// The rows lie within the data, and for a layout of 32-bit pixel words
    /// each row holds a word for every pixel.
    pub open spec fn wf(&self) -> bool {
        &&& 0 <= self.width
        &&& 0 <= self.height
        &&& 0 <= self.stride
        &&& self.stride * self.height <= self.data@.len()
        &&& is_rgb_word_layout(self.format) ==> 4 * self.width <= self.stride
    }
}

/// Where, within a pixel word, channel `c` (0 red, 1 green, 2 blue) lies.
/// The word holds alpha in its top byte, then red, green and blue.
pub open spec fn word_byte(big_endian: bool, c: int) -> int {
    if big_endian {
        c + 1
    } else {
        2 - c
    }
}

/// Channel `c` of the pixel in row `y`, column `x` of a surface.
pub open spec fn surface_channel(s: &CairoSurface, y: int, x: int, c: int) -> u8 {
    s.data@[y * s.stride + 4 * x + word_byte(s.big_endian, c)]
}

/// How filling a frame from a cairo surface ends.
pub open spec fn cairo_fill_result(f: FrameView, s: &CairoSurface) -> Result<(), VideoError> {
    if s.width != f.width || s.height != f.height {
        Err(VideoError::SizeMismatch)
    } else if !is_rgb_word_layout(s.format) || f.format != PixelFormat::Rgb24 {
        Err(VideoError::UnsupportedFormat)
    } else {
        Ok(())
    }
}

proof fn lemma_pixel_index(w: int, h: int, y: int, x: int)
    requires
        0 <= y < h,
        0 <= x < w,
    ensures
        0 <= 3 * (y * w + x),
        3 * (y * w + x) + 3 <= 3 * (w * h),
{
    assert(y * w + x + 1 <= w * h) by (nonlinear_arith)
        requires
            0 <= y < h,
            0 <= x < w,
    ;
    assert(0 <= y * w) by (nonlinear_arith)
        requires
            0 <= y,
            0 <= x < w,
    ;
}

proof fn lemma_row_in_surface(stride: int, h: int, w: int, y: int, x: int, len: int)
    requires
        0 <= y < h,
        0 <= x < w,
        4 * w <= stride,
        stride * h <= len,
    ensures
        0 <= y * stride,
        y * stride + 4 * x + 4 <= len,
{
    assert(y * stride + stride <= stride * h) by (nonlinear_arith)
        requires
            0 <= y < h,
            0 <= stride,
    ;
    assert(0 <= y * stride) by (nonlinear_arith)
        requires
            0 <= y,
            0 <= stride,
    ;
}

impl Frame {
    /// Fills the frame from a cairo image surface, dropping alpha.
    ///
    /// Fails with `SizeMismatch` when the surface's width or height differs
    /// from the frame's, and then with `UnsupportedFormat` unless the surface
    /// holds RGB24 or ARGB32 pixels and the frame is packed RGB. Alpha is
    /// ignored, not divided out, so premultiplied pixels come out darkened.
    /// The timestamp is not touched, and on failure nothing is.
    pub fn fill_from_cairo_rgb(&mut self, surface: &CairoSurface) -> (r: Result<(), VideoError>)
        requires
            old(self)@.wf(),
            surface.wf(),
        ensures
            final(self)@.wf(),
            r == cairo_fill_result(old(self)@, surface),
            r is Err ==> final(self)@ == old(self)@,
            r is Ok ==> {
                &&& final(self)@.format == old(self)@.format
                &&& final(self)@.width == old(self)@.width
                &&& final(self)@.height == old(self)@.height
                &&& final(self)@.pts == old(self)@.pts
                &&& forall|y: int, x: int, c: int|
                    0 <= y < surface.height && 0 <= x < surface.width && 0 <= c < 3
                        ==> #[trigger] final(self)@.data[3 * (y * surface.width + x) + c]
                        == surface_channel(surface, y, x, c)
            },
    {
        if surface.width != self.width || surface.height != self.height {
            return Err(VideoError::SizeMismatch);
        }
        let rgb_words = match surface.format {
            SurfaceFormat::Rgb24 | SurfaceFormat::ARgb32 => true,
            _ => false,
        };
        if !rgb_words || self.format != PixelFormat::Rgb24 {
            return Err(VideoError::UnsupportedFormat);
        }
        proof {
            lemma_buffer_len_bounds(self.format, self.width as int, self.height as int);
        }
        let width = self.width as usize;
        let height = self.height as usize;
        let stride = surface.stride as usize;
        let (r_at, g_at, b_at): (usize, usize, usize) = if surface.big_endian {
            (1, 2, 3)
        } else {
            (2, 1, 0)
        };
        let data_len = surface.data.len();
        let ghost old_view = self@;
        let ghost w = width as int;
        let ghost h = height as int;
        let mut y: usize = 0;
        let mut row: usize = 0;
        let mut out: usize = 0;
        while y < height
            invariant
                y <= height,
                w == width,
                h == height,
                width == surface.width,
                height == surface.height,
                stride == surface.stride,
                data_len == surface.data@.len(),
                surface.wf(),
                4 * w <= stride,
                row == y * stride,
                out == 3 * (y * w),
                self.data@.len() == 3 * (w * h),
                3 * (w * h) <= 3 * (16384 * 16384),
                r_at == word_byte(surface.big_endian, 0),
                g_at == word_byte(surface.big_endian, 1),
                b_at == word_byte(surface.big_endian, 2),
                self@ == (FrameView { data: self@.data, ..old_view }),
                forall|yy: int, x: int, c: int|
                    0 <= yy < y && 0 <= x < w && 0 <= c < 3
                        ==> #[trigger] self.data@[3 * (yy * w + x) + c]
                        == surface_channel(surface, yy, x, c),
            decreases height - y,
        {
            let mut x: usize = 0;
            while x < width
                invariant
                    y < height,
                    x <= width,
                    w == width,
                    h == height,
                    width == surface.width,
                    height == surface.height,
                    stride == surface.stride,
                    data_len == surface.data@.len(),
                    surface.wf(),
                    4 * w <= stride,
                    row == y * stride,
                    out == 3 * (y * w + x),
                    self.data@.len() == 3 * (w * h),
                    3 * (w * h) <= 3 * (16384 * 16384),
                    r_at == word_byte(surface.big_endian, 0),
                    g_at == word_byte(surface.big_endian, 1),
                    b_at == word_byte(surface.big_endian, 2),
                    self@ == (FrameView { data: self@.data, ..old_view }),
                    forall|yy: int, xx: int, c: int|
                        0 <= yy < y && 0 <= xx < w && 0 <= c < 3
                            ==> #[trigger] self.data@[3 * (yy * w + xx) + c]
                            == surface_channel(surface, yy, xx, c),
                    forall|xx: int, c: int|
                        0 <= xx < x && 0 <= c < 3
                            ==> #[trigger] self.data@[3 * (y * w + xx) + c]
                            == surface_channel(surface, y as int, xx, c),
                decreases width - x,
            {
                proof {
                    lemma_pixel_index(w, h, y as int, x as int);
                    lemma_row_in_surface(stride as int, h, w, y as int, x as int, surface.data@.len() as int);
                }
                let at = row + 4 * x;
                let ghost before = self.data@;
                self.data.set(out, surface.data[at + r_at]);
                self.data.set(out + 1, surface.data[at + g_at]);
                self.data.set(out + 2, surface.data[at + b_at]);
                proof {
                    assert forall|yy: int, xx: int, c: int|
                        0 <= yy < y && 0 <= xx < w && 0 <= c < 3
                            implies #[trigger] self.data@[3 * (yy * w + xx) + c]
                            == surface_channel(surface, yy, xx, c) by {
                        lemma_pixel_index(w, h, yy, xx);
                        assert(yy * w + xx + 1 <= y * w) by (nonlinear_arith)
                            requires
                                0 <= yy < y,
                                0 <= xx < w,
                        ;
                        assert(self.data@[3 * (yy * w + xx) + c] == before[3 * (yy * w + xx) + c]);
                    }
                    assert forall|xx: int, c: int|
                        0 <= xx < x + 1 && 0 <= c < 3
                            implies #[trigger] self.data@[3 * (y * w + xx) + c]
                            == surface_channel(surface, y as int, xx, c) by {
                        if xx < x {
                            assert(self.data@[3 * (y * w + xx) + c] == before[3 * (y * w + xx) + c]);
                        } else {
                            assert(c == 0 || c == 1 || c == 2);
                        }
                    }
                }
                out = out + 3;
                x = x + 1;
            }
            proof {
                assert((y + 1) * w == y * w + w) by (nonlinear_arith);
                assert((y + 1) * stride == y * stride + stride) by (nonlinear_arith);
                assert forall|yy: int, xx: int, c: int|
                    0 <= yy < y + 1 && 0 <= xx < w && 0 <= c < 3
                        implies #[trigger] self.data@[3 * (yy * w + xx) + c]
                        == surface_channel(surface, yy, xx, c) by {
                    if yy == y {
                        assert(self.data@[3 * (y * w + xx) + c] == surface_channel(surface, y as int, xx, c));
                    }
                }
            }
            proof {
                assert(row + stride <= stride * h) by (nonlinear_arith)
                    requires
                        row == y * stride,
                        y + 1 <= h,
                        0 <= stride,
                ;
            }
            row = row + stride;
            y = y + 1;
        }
        Ok(())
    }
}

} // verus!
