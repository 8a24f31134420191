//! Screenshots from `softbuffer` pixel buffers (XRGB8888 or ARGB8888 `u32`s).
use vstd::prelude::*;
use crate::capture::{Capture, CaptureError, CaptureErrorKind};
use crate::pixels::{mismatch_message, mismatch_text, rgba_from_packed, rgba_of_packed};
use crate::screenshot::Screenshot;

verus! {

/// Pixel layout used by softbuffer pixel data.
#[derive(Debug, Clone, Copy, PartialEq, Eq, Structural)]
pub enum SoftbufferPixelFormat {
    /// XRGB8888: high byte unused, alpha forced to 255.
    Xrgb,
    /// ARGB8888: alpha packed in the high byte.
    Argb,
}

/// Error returned when capturing from a softbuffer pixel buffer fails.
#[derive(Debug)]
pub enum SoftbufferCaptureError {
    /// The pixel count does not match the declared dimensions.
    DimensionMismatch { expected: usize, actual: usize },
}

impl SoftbufferCaptureError {
    /// The human-readable description of the error.
    pub fn to_message(&self) -> (s: String)
        ensures
            match self {
                SoftbufferCaptureError::DimensionMismatch { expected, actual } => s@
                    == mismatch_text(*expected as nat, *actual as nat),
            },
    {
        match self {
            SoftbufferCaptureError::DimensionMismatch { expected, actual } => mismatch_message(
                *expected,
                *actual,
            ),
        }
    }

    /// The canonical capture error for this error: kind `Unsupported`, the
    /// same description as message, and this error's description as source.
    pub fn to_capture_error(self) -> (e: CaptureError)
        ensures
            e.spec_kind() == CaptureErrorKind::Unsupported,
            match self {
                SoftbufferCaptureError::DimensionMismatch { expected, actual } => e.spec_message()
                    == mismatch_text(expected as nat, actual as nat) && e.spec_source() == Some(
                    mismatch_text(expected as nat, actual as nat),
                ),
            },
    {
        let text = self.to_message();
        let source = self.to_message();
        CaptureError::new(CaptureErrorKind::Unsupported, text.as_str()).with_source(source)
    }
}

/// Borrowed view over a softbuffer pixel buffer that implements [`Capture`].
pub struct SoftbufferCapture<'a> {
    pixels: &'a [u32],
    width: u32,
    height: u32,
    format: SoftbufferPixelFormat,
}

impl<'a> SoftbufferCapture<'a> {
    #[verifier::type_invariant]
    closed spec fn size_fits(&self) -> bool {
        self.width * self.height <= usize::MAX
    }

    /// The buffer this capture reads.
    pub closed spec fn spec_pixels(&self) -> Seq<u32> {
        self.pixels@
    }

    /// The declared width.
    pub closed spec fn spec_width(&self) -> u32 {
        self.width
    }

    /// The declared height.
    pub closed spec fn spec_height(&self) -> u32 {
        self.height
    }

    /// The pixel layout of the buffer.
    pub closed spec fn spec_format(&self) -> SoftbufferPixelFormat {
        self.format
    }

    /// Create a new capture helper using the default XRGB8888 format.
    pub fn new(pixels: &'a [u32], width: u32, height: u32) -> (c: Self)
        requires
            width * height <= usize::MAX,
        ensures
            c.spec_pixels() == pixels@,
            c.spec_width() == width,
            c.spec_height() == height,
            c.spec_format() == SoftbufferPixelFormat::Xrgb,
    {
        Self::with_format(pixels, width, height, SoftbufferPixelFormat::Xrgb)
    }

    /// Create a new capture helper with an explicit pixel format.
    pub fn with_format(pixels: &'a [u32], width: u32, height: u32, format: SoftbufferPixelFormat) -> (c:
        Self)
        requires
            width * height <= usize::MAX,
        ensures
            c.spec_pixels() == pixels@,
            c.spec_width() == width,
            c.spec_height() == height,
            c.spec_format() == format,
    {
        SoftbufferCapture { pixels, width, height, format }
    }
}

impl<'a> Capture for SoftbufferCapture<'a> {
    type Error = SoftbufferCaptureError;

    /// The buffer is left as it was; the result is the converted screenshot,
    /// or `DimensionMismatch` when the buffer is not `width × height` pixels.
    open spec fn capture_outcome(before: Self, after: Self, r: Result<Screenshot, SoftbufferCaptureError>) -> bool {
        &&& after == before
        &&& match r {
            Ok(shot) => {
                &&& before.spec_pixels().len() == before.spec_width() * before.spec_height()
                &&& shot.spec_width() == before.spec_width()
                &&& shot.spec_height() == before.spec_height()
                &&& shot.spec_data() == rgba_of_packed(
                    before.spec_pixels(),
                    before.spec_format() == SoftbufferPixelFormat::Argb,
                )
            },
            Err(SoftbufferCaptureError::DimensionMismatch { expected, actual }) => before.spec_pixels().len()
                != before.spec_width() * before.spec_height() && expected == before.spec_width()
                * before.spec_height() && actual == before.spec_pixels().len(),
        }
    }

    /// Converts the buffer; fails with `DimensionMismatch` when its length
    /// is not `width × height`.
    fn capture(&mut self) -> (r: Result<Screenshot, SoftbufferCaptureError>)
        ensures
            *final(self) == *old(self),
            match r {
                Ok(shot) => {
                    &&& old(self).spec_pixels().len() == old(self).spec_width() * old(
                        self,
                    ).spec_height()
                    &&& shot.spec_width() == old(self).spec_width()
                    &&& shot.spec_height() == old(self).spec_height()
                    &&& shot.spec_data() == rgba_of_packed(
                        old(self).spec_pixels(),
                        old(self).spec_format() == SoftbufferPixelFormat::Argb,
                    )
                },
                Err(SoftbufferCaptureError::DimensionMismatch { expected, actual }) => old(
                    self,
                ).spec_pixels().len() != old(self).spec_width() * old(self).spec_height()
                    && expected == old(self).spec_width() * old(self).spec_height() && actual == old(
                    self,
                ).spec_pixels().len(),
            },
    {
        proof {
            use_type_invariant(&*self);
        }
        let expected: usize = (self.width as usize) * (self.height as usize);
        if self.pixels.len() != expected {
            return Err(
                SoftbufferCaptureError::DimensionMismatch { expected, actual: self.pixels.len() },
            );
        }
        let keep_alpha = match self.format {
            SoftbufferPixelFormat::Xrgb => false,
            SoftbufferPixelFormat::Argb => true,
        };
        let rgba = rgba_from_packed(self.pixels, keep_alpha);
        Ok(Screenshot::from_rgba(self.width, self.height, rgba))
    }
}

/// Convert a softbuffer pixel buffer (native-endian XRGB8888 `u32`s: the
/// most-significant byte unused, then 8-bit R, G, B) into a [`Screenshot`]
/// with alpha 255.
///
/// The buffer must hold exactly `width × height` pixels.
pub fn capture(pixels: &[u32], width: u32, height: u32) -> (shot: Screenshot)
    requires
        pixels@.len() == width * height,
    ensures
        shot.spec_width() == width,
        shot.spec_height() == height,
        shot.spec_data() == rgba_of_packed(pixels@, false),
{
    let rgba = rgba_from_packed(pixels, false);
    Screenshot::from_rgba(width, height, rgba)
}

/// Convert a softbuffer pixel buffer stored in **ARGB8888** format into a
/// [`Screenshot`], preserving the alpha channel.
///
/// The buffer must hold exactly `width × height` pixels.
pub fn capture_argb(pixels: &[u32], width: u32, height: u32) -> (shot: Screenshot)
    requires
        pixels@.len() == width * height,
    ensures
        shot.spec_width() == width,
        shot.spec_height() == height,
        shot.spec_data() == rgba_of_packed(pixels@, true),
{
    let rgba = rgba_from_packed(pixels, true);
    Screenshot::from_rgba(width, height, rgba)
}

} // verus!
