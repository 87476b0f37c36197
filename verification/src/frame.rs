//! Decoded pictures and the playback parameters that shape them.

use vstd::prelude::*;

verus! {

/// Output pixel format the converter is asked to produce at pipeline start.
#[derive(Clone, Copy, PartialEq, Eq, Structural, Debug)]
pub enum PixelFormat {
    /// One byte per pixel.
    RGB8,
    /// Three bytes per pixel.
    RGB24,
}

impl PixelFormat {
    /// How many bytes one pixel occupies in a converted frame.
    pub open spec fn spec_bytes_per_pixel(self) -> u32 {
        match self {
            PixelFormat::RGB8 => 1,
            PixelFormat::RGB24 => 3,
        }
    }

    pub fn bytes_per_pixel(self) -> (r: u32)
        ensures
            r == self.spec_bytes_per_pixel(),
    {
        match self {
            PixelFormat::RGB8 => 1,
            PixelFormat::RGB24 => 3,
        }
    }
}

impl Default for PixelFormat {
    fn default() -> (r: Self)
        ensures
            r == PixelFormat::RGB24,
    {
        PixelFormat::RGB24
    }
}

/// Parameters of one playback session.
#[derive(Clone, Copy, PartialEq, Eq, Structural, Debug)]
pub struct PlaybackParams {
    /// Format every produced frame is converted to.
    pub pixel_format: PixelFormat,
    /// A live source has no fixed end and is never paced by the producer.
    pub is_live: bool,
}

impl Default for PlaybackParams {
    fn default() -> (r: Self)
        ensures
            r == (PlaybackParams { pixel_format: PixelFormat::RGB24, is_live: false }),
    {
        PlaybackParams { pixel_format: PixelFormat::RGB24, is_live: false }
    }
}

/// Mathematical value of a [`Frame`]: its pixel bytes and metadata.
pub ghost struct FrameView {
    pub width: u32,
    pub height: u32,
    pub data: Seq<u8>,
    pub ts_us: u64,
}

impl FrameView {
    /// A frame is well formed for `bpp` bytes per pixel when its buffer holds
    /// exactly `width * height * bpp` bytes, row-major with no row padding.
    pub open spec fn wf(self, bpp: u32) -> bool {
        self.data.len() == self.width * self.height * bpp
    }
}

/// One decoded picture: immutable pixel bytes plus presentation metadata.
///
/// A frame is created once by the decode loop and never mutated afterwards.
pub struct Frame {
    /// Picture width in pixels.
    pub width: u32,
    /// Picture height in pixels.
    pub height: u32,
    /// Pixel bytes, exactly `width * height * bytes_per_pixel`, row-major.
    pub data: Vec<u8>,
    /// Presentation timestamp in microseconds of the stream's own clock.
    pub ts_us: u64,
}

impl View for Frame {
    type V = FrameView;

    open spec fn view(&self) -> FrameView {
        FrameView {
            width: self.width,
            height: self.height,
            data: self.data@,
            ts_us: self.ts_us,
        }
    }
}

impl Frame {
    pub fn new(width: u32, height: u32, data: Vec<u8>, ts_us: u64) -> (r: Frame)
        ensures
            r@ == (FrameView { width, height, data: data@, ts_us }),
    {
        Frame { width, height, data, ts_us }
    }
}

} // verus!
