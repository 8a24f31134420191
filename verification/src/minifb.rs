//! Screenshots from `minifb` pixel buffers (0RGB8888 or ARGB8888 `u32`s).
use vstd::prelude::*;
use crate::capture::{Capture, CaptureError, CaptureErrorKind};
use crate::pixels::{mismatch_message, mismatch_text, rgba_from_packed, rgba_of_packed};
use crate::screenshot::Screenshot;

verus! {

/// Pixel layout used by a minifb buffer.
#[derive(Debug, Clone, Copy, PartialEq, Eq, Structural)]
pub enum MinifbPixelFormat {
    /// 0RGB8888: minifb's default (high byte ignored, alpha forced to 255).
    ZeroRgb,
    /// ARGB8888: when the caller packs alpha in the high byte themselves.
    Argb,
}

/// Error returned when the supplied buffer does not match the declared
/// dimensions.
#[derive(Debug)]
pub enum MinifbCaptureError {
    DimensionMismatch { expected: usize, actual: usize },
}

impl MinifbCaptureError {
    /// The human-readable description of the error.
    pub fn to_message(&self) -> (s: String)
        ensures
            match self {
                MinifbCaptureError::DimensionMismatch { expected, actual } => s@ == mismatch_text(
                    *expected as nat,
                    *actual as nat,
                ),
            },
    {
        match self {
            MinifbCaptureError::DimensionMismatch { expected, actual } => mismatch_message(
                *expected,
                *actual,
            ),
        }
    }

    /// The canonical capture error for this error: kind `Unsupported`, the
    /// same description as message, and this error's description as source.
    pub fn to_capture_error(self) -> (e: CaptureError)
        ensures
            e.spec_kind() == CaptureErrorKind::Unsupported,
            match self {
                MinifbCaptureError::DimensionMismatch { expected, actual } => e.spec_message()
                    == mismatch_text(expected as nat, actual as nat) && e.spec_source() == Some(
                    mismatch_text(expected as nat, actual as nat),
                ),
            },
    {
        let text = self.to_message();
        let source = self.to_message();
        CaptureError::new(CaptureErrorKind::Unsupported, text.as_str()).with_source(source)
    }
}

/// What converting a minifb buffer gives: a dimension mismatch when the
/// pixel count is not `width * height`, else the RGBA8 screenshot.
pub open spec fn minifb_result_ok(
    pixels: Seq<u32>,
    width: u32,
    height: u32,
    format: MinifbPixelFormat,
    shot: Screenshot,
) -> bool {
    &&& pixels.len() == width * height
    &&& shot.spec_width() == width
    &&& shot.spec_height() == height
    &&& shot.spec_data() == rgba_of_packed(pixels, format == MinifbPixelFormat::Argb)
}

/// Convert a minifb pixel buffer (0RGB8888) into a [`Screenshot`].
///
/// Fails with `DimensionMismatch` if the buffer length does not match
/// `width × height`.
pub fn capture(pixels: &[u32], width: u32, height: u32) -> (r: Result<Screenshot, MinifbCaptureError>)
    requires
        width * height <= usize::MAX,
    ensures
        match r {
            Ok(shot) => minifb_result_ok(pixels@, width, height, MinifbPixelFormat::ZeroRgb, shot),
            Err(MinifbCaptureError::DimensionMismatch { expected, actual }) => pixels@.len()
                != width * height && expected == width * height && actual == pixels@.len(),
        },
{
    capture_with_format(pixels, width, height, MinifbPixelFormat::ZeroRgb)
}

/// Convert a minifb pixel buffer into a [`Screenshot`] with an explicit format.
pub fn capture_with_format(pixels: &[u32], width: u32, height: u32, format: MinifbPixelFormat) -> (r:
    Result<Screenshot, MinifbCaptureError>)
    requires
        width * height <= usize::MAX,
    ensures
        match r {
            Ok(shot) => minifb_result_ok(pixels@, width, height, format, shot),
            Err(MinifbCaptureError::DimensionMismatch { expected, actual }) => pixels@.len()
                != width * height && expected == width * height && actual == pixels@.len(),
        },
{
    let expected: usize = (width as usize) * (height as usize);
    if pixels.len() != expected {
        return Err(MinifbCaptureError::DimensionMismatch { expected, actual: pixels.len() });
    }
    let keep_alpha = match format {
        MinifbPixelFormat::ZeroRgb => false,
        MinifbPixelFormat::Argb => true,
    };
    let rgba = rgba_from_packed(pixels, keep_alpha);
    Ok(Screenshot::from_rgba(width, height, rgba))
}

/// Borrowed view over a minifb pixel buffer that implements [`Capture`].
pub struct MinifbCapture<'a> {
    pixels: &'a [u32],
    width: u32,
    height: u32,
    format: MinifbPixelFormat,
}

impl<'a> MinifbCapture<'a> {
    #[verifier::type_invariant]
    closed spec fn size_fits(&self) -> bool {
        self.width * self.height <= usize::MAX
    }

    /// The buffer this capture reads.
    pub closed spec fn spec_pixels(&self) -> Seq<u32> {
        self.pixels@
    }

    /// The declared width.
    pub closed spec fn spec_width(&self) -> u32 {
        self.width
    }

    /// The declared height.
    pub closed spec fn spec_height(&self) -> u32 {
        self.height
    }

    /// The pixel layout of the buffer.
    pub closed spec fn spec_format(&self) -> MinifbPixelFormat {
        self.format
    }

    /// Create a new capture helper using the default 0RGB8888 format.
    pub fn new(pixels: &'a [u32], width: u32, height: u32) -> (c: Self)
        requires
            width * height <= usize::MAX,
        ensures
            c.spec_pixels() == pixels@,
            c.spec_width() == width,
            c.spec_height() == height,
            c.spec_format() == MinifbPixelFormat::ZeroRgb,
    {
        Self::with_format(pixels, width, height, MinifbPixelFormat::ZeroRgb)
    }

    /// Create a new capture helper with an explicit pixel format.
    pub fn with_format(pixels: &'a [u32], width: u32, height: u32, format: MinifbPixelFormat) -> (c:
        Self)
        requires
            width * height <= usize::MAX,
        ensures
            c.spec_pixels() == pixels@,
            c.spec_width() == width,
            c.spec_height() == height,
            c.spec_format() == format,
    {
        MinifbCapture { pixels, width, height, format }
    }
}

impl<'a> Capture for MinifbCapture<'a> {
    type Error = CaptureError;

    /// The buffer is left as it was; the result is the converted screenshot,
    /// or the dimension-mismatch error when the buffer is not `width ×
    /// height` pixels.
    open spec fn capture_outcome(before: Self, after: Self, r: Result<Screenshot, CaptureError>) -> bool {
        &&& after == before
        &&& match r {
            Ok(shot) => minifb_result_ok(
                before.spec_pixels(),
                before.spec_width(),
                before.spec_height(),
                before.spec_format(),
                shot,
            ),
            Err(e) => before.spec_pixels().len() != before.spec_width() * before.spec_height()
                && e.spec_kind() == CaptureErrorKind::Unsupported && e.spec_message() == mismatch_text(
                (before.spec_width() * before.spec_height()) as nat,
                before.spec_pixels().len(),
            ),
        }
    }

    fn capture(&mut self) -> (r: Result<Screenshot, CaptureError>)
        ensures
            *final(self) == *old(self),
            match r {
                Ok(shot) => minifb_result_ok(
                    old(self).spec_pixels(),
                    old(self).spec_width(),
                    old(self).spec_height(),
                    old(self).spec_format(),
                    shot,
                ),
                Err(e) => old(self).spec_pixels().len() != old(self).spec_width() * old(self).spec_height()
                    && e.spec_kind() == CaptureErrorKind::Unsupported && e.spec_message()
                    == mismatch_text(
                    (old(self).spec_width() * old(self).spec_height()) as nat,
                    old(self).spec_pixels().len(),
                ),
            },
    {
        proof {
            use_type_invariant(&*self);
        }
        match capture_with_format(self.pixels, self.width, self.height, self.format) {
            Ok(shot) => Ok(shot),
            Err(e) => Err(e.to_capture_error()),
        }
    }
}

} // verus!
