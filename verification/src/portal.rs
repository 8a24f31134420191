//! The logic of XDG Desktop Portal capture: the portal hands back a file
//! URI; the PNG file it names is decoded into a screenshot.
use vstd::prelude::*;
use crate::capture::{CaptureError, CaptureErrorKind};
use crate::png_codec::{png_decode, png_decoding};
use crate::screenshot::{rgba_from_rgb, Screenshot};
use crate::uri::{file_uri_local_path, local_path_of_file_uri};
use vstd::string::StringSliceAdditionalSpecFns;

verus! {

/// An error returned by portal capture.
#[derive(Debug)]
pub enum PortalCaptureError {
    /// The portal D-Bus call failed, with the call's error description.
    Portal(String),
    /// The user cancelled the screenshot request (declined the dialog).
    PortalCancelled,
    /// Failed to decode the PNG file returned by the portal.
    DecodePng(String),
    /// The URI returned by the portal was not a `file://` URI.
    UnsupportedScheme(String),
    /// An I/O error occurred, with its description.
    Io(String),
}

/// The human-readable description of a portal capture error.
pub open spec fn portal_error_text(e: PortalCaptureError) -> Seq<char> {
    match e {
        PortalCaptureError::Portal(m) => "Portal error: "@ + m@,
        PortalCaptureError::PortalCancelled => "Screenshot request was cancelled by the user"@,
        PortalCaptureError::DecodePng(m) => "PNG decode error: "@ + m@,
        PortalCaptureError::UnsupportedScheme(u) => "Unsupported URI scheme: "@ + u@,
        PortalCaptureError::Io(m) => "I/O error: "@ + m@,
    }
}

/// `prefix` followed by `rest`, as a fresh string.
fn joined(prefix: &str, rest: &str) -> (s: String)
    ensures
        s@ == prefix@ + rest@,
{
    let mut s = String::from_str(prefix);
    s.append(rest);
    s
}

impl PortalCaptureError {
    /// The human-readable description of the error.
    pub fn to_message(&self) -> (s: String)
        ensures
            s@ == portal_error_text(*self),
    {
        match self {
            PortalCaptureError::Portal(m) => joined("Portal error: ", m.as_str()),
            PortalCaptureError::PortalCancelled => String::from_str(
                "Screenshot request was cancelled by the user",
            ),
            PortalCaptureError::DecodePng(m) => joined("PNG decode error: ", m.as_str()),
            PortalCaptureError::UnsupportedScheme(u) => joined("Unsupported URI scheme: ", u.as_str()),
            PortalCaptureError::Io(m) => joined("I/O error: ", m.as_str()),
        }
    }

    /// The canonical capture error: a cancelled request is `Cancelled`, a
    /// non-file URI `Unsupported`, a bad PNG `Decode`, a failed portal call
    /// `Backend` and an I/O failure `Io`; the last two keep this error's
    /// description as source.
    pub fn to_capture_error(self) -> (e: CaptureError)
        ensures
            match self {
                PortalCaptureError::PortalCancelled => e.spec_kind() == CaptureErrorKind::Cancelled
                    && e.spec_message() == "screenshot request was cancelled by the user"@
                    && e.spec_source() is None,
                PortalCaptureError::UnsupportedScheme(u) => e.spec_kind()
                    == CaptureErrorKind::Unsupported && e.spec_message() == "unsupported URI scheme: "@
                    + u@ && e.spec_source() is None,
                PortalCaptureError::DecodePng(m) => e.spec_kind() == CaptureErrorKind::Decode
                    && e.spec_message() == "PNG decode error: "@ + m@ && e.spec_source() is None,
                PortalCaptureError::Portal(m) => e.spec_kind() == CaptureErrorKind::Backend
                    && e.spec_message() == "portal error: "@ + m@ && e.spec_source() == Some(
                    portal_error_text(self),
                ),
                PortalCaptureError::Io(m) => e.spec_kind() == CaptureErrorKind::Io
                    && e.spec_message() == "I/O error: "@ + m@ && e.spec_source() == Some(
                    portal_error_text(self),
                ),
            },
    {
        let source = self.to_message();
        match self {
            PortalCaptureError::PortalCancelled => CaptureError::new(
                CaptureErrorKind::Cancelled,
                "screenshot request was cancelled by the user",
            ),
            PortalCaptureError::UnsupportedScheme(u) => {
                let m = joined("unsupported URI scheme: ", u.as_str());
                CaptureError::new(CaptureErrorKind::Unsupported, m.as_str())
            },
            PortalCaptureError::DecodePng(d) => {
                let m = joined("PNG decode error: ", d.as_str());
                CaptureError::new(CaptureErrorKind::Decode, m.as_str())
            },
            PortalCaptureError::Portal(p) => {
                let m = joined("portal error: ", p.as_str());
                CaptureError::new(CaptureErrorKind::Backend, m.as_str()).with_source(source)
            },
            PortalCaptureError::Io(i) => {
                let m = joined("I/O error: ", i.as_str());
                CaptureError::new(CaptureErrorKind::Io, m.as_str()).with_source(source)
            },
        }
    }
}

/// The local path, as bytes, of the file that the portal's URI names (see
/// [`file_uri_local_path`]); any URI that names no local file (another
/// scheme, a remote host) is refused as `UnsupportedScheme` with the whole
/// URI.
pub fn path_of_portal_uri(uri: &str) -> (r: Result<Vec<u8>, PortalCaptureError>)
    ensures
        match file_uri_local_path(uri.spec_bytes()) {
            Some(p) => r matches Ok(v) && v@ == p,
            None => r matches Err(PortalCaptureError::UnsupportedScheme(u)) && u@ == uri@,
        },
{
    match local_path_of_file_uri(uri) {
        Some(p) => Ok(p),
        None => Err(PortalCaptureError::UnsupportedScheme(String::from_str(uri))),
    }
}

/// The name of a PNG color-type code, as `png::ColorType` prints it.
pub open spec fn color_type_name(color: u8) -> Seq<char> {
    if color == 0 {
        "Grayscale"@
    } else if color == 2 {
        "Rgb"@
    } else if color == 3 {
        "Indexed"@
    } else if color == 4 {
        "GrayscaleAlpha"@
    } else {
        "Rgba"@
    }
}

fn color_type_str(color: u8) -> (s: &'static str)
    ensures
        s@ == color_type_name(color),
{
    if color == 0 {
        "Grayscale"
    } else if color == 2 {
        "Rgb"
    } else if color == 3 {
        "Indexed"
    } else if color == 4 {
        "GrayscaleAlpha"
    } else {
        "Rgba"
    }
}

/// Whether a decoded frame holds exactly the bytes its color type needs:
/// four per pixel for RGBA (code 6), three for RGB (code 2), whose RGBA8
/// form must also fit in memory.
pub open spec fn frame_fits(width: u32, height: u32, color: u8, len: nat) -> bool {
    &&& color == 6 ==> len == width * height * 4
    &&& color == 2 ==> len == width * height * 3 && width * height * 4 <= usize::MAX
}

/// Turn a decoded PNG frame into a screenshot: RGBA frames are used as
/// they are, RGB frames get full opacity, other color types are refused.
pub fn screenshot_from_png_frame(width: u32, height: u32, color: u8, data: Vec<u8>) -> (r: Result<
    Screenshot,
    PortalCaptureError,
>)
    requires
        frame_fits(width, height, color, data@.len()),
    ensures
        color == 6 ==> (r matches Ok(s) && s.spec_width() == width && s.spec_height() == height
            && s.spec_data() == data@),
        color == 2 ==> (r matches Ok(s) && s.spec_width() == width && s.spec_height() == height
            && s.spec_data() == rgba_from_rgb(data@)),
        color != 6 && color != 2 ==> (r matches Err(PortalCaptureError::DecodePng(m)) && m@
            == "unsupported PNG color type: "@ + color_type_name(color)),
{
    if color == 6 {
        Ok(Screenshot::from_rgba(width, height, data))
    } else if color == 2 {
        Ok(Screenshot::from_rgb(width, height, data.as_slice()))
    } else {
        Err(PortalCaptureError::DecodePng(joined("unsupported PNG color type: ", color_type_str(color))))
    }
}

/// Decode the PNG file that the portal wrote into a screenshot.
///
/// `None` when the decoded frame's length does not match its size and
/// color type (see [`frame_fits`]); otherwise the decoding error as
/// `DecodePng`, or the frame turned into a screenshot by
/// [`screenshot_from_png_frame`].
pub fn screenshot_from_png(bytes: &[u8]) -> (r: Option<Result<Screenshot, PortalCaptureError>>)
    ensures
        match png_decoding(bytes@) {
            Err(m) => r matches Some(Err(PortalCaptureError::DecodePng(t))) && t@ == m,
            Ok((w, h, c, d)) => match r {
                None => !frame_fits(w, h, c, d.len()),
                Some(res) => frame_fits(w, h, c, d.len()) && (c == 6 ==> (res matches Ok(s)
                    && s.spec_width() == w && s.spec_height() == h && s.spec_data() == d)) && (c
                    == 2 ==> (res matches Ok(s) && s.spec_width() == w && s.spec_height() == h
                    && s.spec_data() == rgba_from_rgb(d))) && (c != 6 && c != 2 ==> (res matches Err(
                    PortalCaptureError::DecodePng(m),
                ) && m@ == "unsupported PNG color type: "@ + color_type_name(c))),
            },
        },
{
    match png_decode(bytes) {
        Err(m) => Some(Err(PortalCaptureError::DecodePng(m))),
        Ok((w, h, c, d)) => {
            let len = d.len() as u128;
            assert((w as int) * (h as int) <= 0xFFFF_FFFE_0000_0001int) by (nonlinear_arith)
                requires
                    w <= 0xFFFF_FFFFint,
                    h <= 0xFFFF_FFFFint,
            ;
            let pixels: u128 = (w as u128) * (h as u128);
            let fits = if c == 6 {
                len == pixels * 4
            } else if c == 2 {
                len == pixels * 3 && pixels * 4 <= usize::MAX as u128
            } else {
                true
            };
            if fits {
                Some(screenshot_from_png_frame(w, h, c, d))
            } else {
                None
            }
        },
    }
}

/// How many capture sources a portal session offers: one.
pub fn portal_source_count() -> (n: usize)
    ensures
        n == 1,
{
    1
}

/// The portal offers a single capture: any index but 0 is refused.
pub fn check_portal_index(index: usize) -> (r: Result<(), CaptureError>)
    ensures
        index == 0 ==> r is Ok,
        index != 0 ==> (r matches Err(e) && e.spec_kind() == CaptureErrorKind::Unsupported
            && e.spec_message() == "portal only supports a single capture (index 0)"@),
{
    if index != 0 {
        return Err(
            CaptureError::new(
                CaptureErrorKind::Unsupported,
                "portal only supports a single capture (index 0)",
            ),
        );
    }
    Ok(())
}

} // verus!
