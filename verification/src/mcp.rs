//! The decisions of the MCP screenshot server's `screenshot` tool: which
//! format a file is written in, whether the image goes back inline, and
//! the confirmation text.
use vstd::prelude::*;
use crate::format::{format_of_extension, ImageFormat};
use crate::base64_codec::{base64_standard, base64_text};
use crate::paths::{components_prefix, path_within};
use crate::png_codec::png_decoding;
use crate::screenshot::{
    downscaled_size, fits_within, png_outcome, resampled, scaled_side, EncodeError, Screenshot,
};
use crate::text::{decimal, push_decimal};

verus! {

/// Default port for the MCP HTTP server.
pub const DEFAULT_PORT: u16 = 8731;

/// Default longest-edge cap (in pixels) for inline images.
pub const DEFAULT_INLINE_MAX_DIM: u32 = 1568;

/// Explicit image format override for the screenshot tool.
#[derive(Debug, Clone, Copy, PartialEq, Eq, Structural)]
pub enum Format {
    Png,
    Ppm,
    Pgm,
}

/// The image format a tool format names.
pub open spec fn image_format_of(f: Format) -> ImageFormat {
    match f {
        Format::Png => ImageFormat::Png,
        Format::Ppm => ImageFormat::Ppm,
        Format::Pgm => ImageFormat::Pgm,
    }
}

/// The name the tool's argument gives a format: `png`, `ppm` or `pgm`.
pub open spec fn tool_format_name(f: Format) -> Seq<char> {
    match f {
        Format::Png => "png"@,
        Format::Ppm => "ppm"@,
        Format::Pgm => "pgm"@,
    }
}

/// An explicit format override names the format it is called: the
/// override `png` writes what a `.png` extension would (PNG), `ppm` what a
/// `.ppm` would and `pgm` what a `.pgm` would; no two overrides agree.
pub proof fn lemma_override_names_its_format(f: Format)
    ensures
        format_of_extension(tool_format_name(f)) == Some(image_format_of(f)),
        f == Format::Png <==> image_format_of(f) == ImageFormat::Png,
        f == Format::Ppm <==> image_format_of(f) == ImageFormat::Ppm,
        f == Format::Pgm <==> image_format_of(f) == ImageFormat::Pgm,
{
    reveal_strlit("png");
    reveal_strlit("ppm");
    reveal_strlit("pgm");
}

impl Format {
    /// The image format this tool format names.
    pub fn to_image_format(self) -> (f: ImageFormat)
        ensures
            f == image_format_of(self),
            format_of_extension(tool_format_name(self)) == Some(f),
    {
        proof {
            lemma_override_names_its_format(self);
        }
        match self {
            Format::Png => ImageFormat::Png,
            Format::Ppm => ImageFormat::Ppm,
            Format::Pgm => ImageFormat::Pgm,
        }
    }
}

/// The format of the file to write: the explicit override when given,
/// else the one the path's extension names, else PNG.
pub open spec fn chosen_format(format_override: Option<Format>, ext: Option<Seq<char>>) -> ImageFormat {
    match format_override {
        Some(f) => image_format_of(f),
        None => match ext {
            Some(e) => match format_of_extension(e) {
                Some(f) => f,
                None => ImageFormat::Png,
            },
            None => ImageFormat::Png,
        },
    }
}

/// The format of the file to write, from the override and the path's
/// extension.
pub fn output_format(format_override: Option<Format>, ext: Option<&str>) -> (f: ImageFormat)
    ensures
        f == chosen_format(
            format_override,
            match ext {
                Some(e) => Some(e@),
                None => None,
            },
        ),
        format_override matches Some(o) ==> format_of_extension(tool_format_name(o)) == Some(f),
{
    match format_override {
        Some(f) => f.to_image_format(),
        None => ImageFormat::for_extension_or_png(ext),
    }
}

/// Whether the image is returned inline: when asked for, and always when
/// no file is written.
pub fn wants_inline_image(include_image: bool, has_target: bool) -> (b: bool)
    ensures
        b == (include_image || !has_target),
{
    include_image || !has_target
}

/// The confirmation for an inline-only capture.
pub open spec fn inline_text(width: u32, height: u32) -> Seq<char> {
    "Captured "@ + decimal(width as nat) + "x"@ + decimal(height as nat)
        + "; returned inline (not saved to disk)."@
}

/// The confirmation for an inline-only capture:
/// `Captured <w>x<h>; returned inline (not saved to disk).`
pub fn inline_message(width: u32, height: u32) -> (s: String)
    ensures
        s@ == inline_text(width, height),
{
    let mut s = String::from_str("Captured ");
    push_decimal(&mut s, width as u64);
    s.append("x");
    push_decimal(&mut s, height as u64);
    s.append("; returned inline (not saved to disk).");
    s
}

/// The name of an image format as the confirmation prints it.
pub open spec fn format_name(f: ImageFormat) -> Seq<char> {
    match f {
        ImageFormat::Png => "Png"@,
        ImageFormat::Ppm => "Ppm"@,
        ImageFormat::Pgm => "Pgm"@,
    }
}

/// The confirmation for a saved capture.
pub open spec fn saved_text(path: Seq<char>, width: u32, height: u32, size: u64, format: ImageFormat) -> Seq<
    char,
> {
    "Screenshot saved to "@ + path + " ("@ + decimal(width as nat) + "x"@ + decimal(height as nat)
        + ", "@ + decimal(size as nat) + " bytes, "@ + format_name(format) + ")"@
}

/// The confirmation for a saved capture:
/// `Screenshot saved to <path> (<w>x<h>, <size> bytes, <format>)`.
pub fn saved_message(path: &str, width: u32, height: u32, size: u64, format: ImageFormat) -> (s:
    String)
    ensures
        s@ == saved_text(path@, width, height, size, format),
{
    let mut s = String::from_str("Screenshot saved to ");
    s.append(path);
    s.append(" (");
    push_decimal(&mut s, width as u64);
    s.append("x");
    push_decimal(&mut s, height as u64);
    s.append(", ");
    push_decimal(&mut s, size);
    s.append(" bytes, ");
    match format {
        ImageFormat::Png => s.append("Png"),
        ImageFormat::Ppm => s.append("Ppm"),
        ImageFormat::Pgm => s.append("Pgm"),
    }
    s.append(")");
    s
}

/// `prefix` followed by `rest`, as a fresh string.
fn joined(prefix: &str, rest: &str) -> (s: String)
    ensures
        s@ == prefix@ + rest@,
{
    let mut s = String::from_str(prefix);
    s.append(rest);
    s
}

/// Bytes or the text of the error that kept them from being read.
pub open spec fn bytes_or_text(x: Result<&[u8], &str>) -> Result<Seq<u8>, Seq<char>> {
    match x {
        Ok(b) => Ok(b@),
        Err(e) => Err(e@),
    }
}

/// The canonical allowed root, if one is configured: its bytes and how it
/// is shown, or the text of the error that kept it from being resolved.
pub open spec fn root_view(x: Option<Result<(&[u8], &str), &str>>) -> Option<
    Result<(Seq<u8>, Seq<char>), Seq<char>>,
> {
    match x {
        None => None,
        Some(Ok((b, shown))) => Some(Ok((b@, shown@))),
        Some(Err(e)) => Some(Err(e@)),
    }
}

/// A flag, or the text of the error that kept it from being read.
pub open spec fn flag_or_text(x: Result<bool, &str>) -> Result<bool, Seq<char>> {
    match x {
        Ok(b) => Ok(b),
        Err(e) => Err(e@),
    }
}

/// The text of an optional string.
pub open spec fn opt_text(x: Option<&str>) -> Option<Seq<char>> {
    match x {
        Some(e) => Some(e@),
        None => None,
    }
}

/// The allowed-root rule: no root configured passes; a root that could not
/// be resolved, or a parent directory outside it (whole components
/// compared), is refused with the message given.
pub open spec fn root_refusal(
    canonical_root: Option<Result<(Seq<u8>, Seq<char>), Seq<char>>>,
    canonical_parent: Seq<u8>,
) -> Option<Seq<char>> {
    match canonical_root {
        None => None,
        Some(Err(e)) => Some("allowed_root does not exist: "@ + e),
        Some(Ok((root, shown))) => if components_prefix(root, canonical_parent) {
            None
        } else {
            Some("path is outside the allowed root '"@ + shown + "'"@)
        },
    }
}

/// The verdict on an output path, from what the file system said of it,
/// the rules taken in order:
/// 1. an empty path is refused;
/// 2. a path without a parent, a parent that cannot be resolved, is not a
///    directory or cannot be written is refused;
/// 3. with an allowed root, a parent outside it is refused;
/// 4. a path where something already exists (or whose existence cannot be
///    checked) is refused;
/// 5. else the file is written in the [`chosen_format`].
pub open spec fn output_path_verdict(
    path: Seq<char>,
    has_parent: bool,
    canonical_parent: Result<Seq<u8>, Seq<char>>,
    parent_is_dir: bool,
    parent_writable: bool,
    canonical_root: Option<Result<(Seq<u8>, Seq<char>), Seq<char>>>,
    exists: Result<bool, Seq<char>>,
    format_override: Option<Format>,
    ext: Option<Seq<char>>,
) -> Result<ImageFormat, Seq<char>> {
    if path.len() == 0 {
        Err("path must not be empty"@)
    } else if !has_parent {
        Err("path has no parent directory"@)
    } else {
        match canonical_parent {
            Err(e) => Err("parent directory does not exist or is not accessible: "@ + e),
            Ok(parent) => if !parent_is_dir {
                Err("parent path is not a directory"@)
            } else if !parent_writable {
                Err("parent directory is not writable"@)
            } else {
                match root_refusal(canonical_root, parent) {
                    Some(m) => Err(m),
                    None => match exists {
                        Err(e) => Err("cannot check if path exists: "@ + e),
                        Ok(true) => Err("file or directory already exists: "@ + path),
                        Ok(false) => Ok(chosen_format(format_override, ext)),
                    },
                }
            },
        }
    }
}

/// Whether a result is the given verdict, the error by its text.
pub open spec fn is_verdict(r: Result<ImageFormat, String>, v: Result<ImageFormat, Seq<char>>) -> bool {
    match r {
        Ok(f) => v == Ok::<ImageFormat, Seq<char>>(f),
        Err(m) => v == Err::<ImageFormat, Seq<char>>(m@),
    }
}

/// Judge an output path before capture, from what the file system said of
/// it: whether `path` has a parent, the parent resolved to a canonical path
/// (its bytes) or the error text, whether that is a directory and can be
/// written, the canonical allowed root (its bytes and how it is shown) when
/// one is configured, and whether something exists at `path`. The result
/// is the format to write in, or the reason the path is refused (see
/// [`output_path_verdict`]).
pub fn judge_output_path(
    path: &str,
    has_parent: bool,
    canonical_parent: Result<&[u8], &str>,
    parent_is_dir: bool,
    parent_writable: bool,
    canonical_root: Option<Result<(&[u8], &str), &str>>,
    exists: Result<bool, &str>,
    format_override: Option<Format>,
    ext: Option<&str>,
) -> (r: Result<ImageFormat, String>)
    ensures
        is_verdict(
            r,
            output_path_verdict(
                path@,
                has_parent,
                bytes_or_text(canonical_parent),
                parent_is_dir,
                parent_writable,
                root_view(canonical_root),
                flag_or_text(exists),
                format_override,
                opt_text(ext),
            ),
        ),
        r is Ok ==> (canonical_root matches Some(root) ==> (root matches Ok((rb, _))
            && canonical_parent matches Ok(pb) && components_prefix(rb@, pb@))),
        r matches Ok(f) ==> (format_override matches Some(o) ==> format_of_extension(
            tool_format_name(o),
        ) == Some(f)),
        path@.len() == 0 ==> r is Err,
        r is Ok ==> path@.len() > 0 && has_parent && canonical_parent is Ok && parent_is_dir
            && parent_writable && exists == Ok::<bool, &str>(false),
{
    if path.is_empty() {
        return Err(String::from_str("path must not be empty"));
    }
    if !has_parent {
        return Err(String::from_str("path has no parent directory"));
    }
    let parent = match canonical_parent {
        Err(e) => {
            return Err(joined("parent directory does not exist or is not accessible: ", e));
        },
        Ok(p) => p,
    };
    if !parent_is_dir {
        return Err(String::from_str("parent path is not a directory"));
    }
    if !parent_writable {
        return Err(String::from_str("parent directory is not writable"));
    }
    match canonical_root {
        None => {},
        Some(Err(e)) => {
            return Err(joined("allowed_root does not exist: ", e));
        },
        Some(Ok((root, shown))) => {
            if !path_within(root, parent) {
                let mut m = joined("path is outside the allowed root '", shown);
                m.append("'");
                return Err(m);
            }
        },
    }
    match exists {
        Err(e) => Err(joined("cannot check if path exists: ", e)),
        Ok(true) => Err(joined("file or directory already exists: ", path)),
        Ok(false) => Ok(output_format(format_override, ext)),
    }
}

/// The longest side of the inline image: `max_dimension` when given, else
/// [`DEFAULT_INLINE_MAX_DIM`]; 0 means full size.
pub open spec fn inline_max(max_dimension: Option<u32>) -> u32 {
    match max_dimension {
        Some(m) => m,
        None => DEFAULT_INLINE_MAX_DIM,
    }
}

/// A side scaled by `max / longest` is between one pixel and `max`.
proof fn lemma_scaled_side_bounds(side: u32, max: u32, longest: u32)
    requires
        side <= longest,
        1 <= max < longest,
    ensures
        1 <= scaled_side(side, max, longest) <= max,
{
    assert((side as int * max as int) / (longest as int) <= max as int) by (nonlinear_arith)
        requires
            side <= longest,
            0 < longest,
            0 <= side,
            0 <= max,
    ;
}

/// The inline image is capped: with no `max_dimension`, both sides of a
/// nonempty capture end up between 1 and 1568 pixels (the default cap);
/// with a positive `max_dimension`, between 1 and that; with 0 the capture
/// keeps its full size.
pub proof fn lemma_inline_size_capped(w: u32, h: u32, max_dimension: Option<u32>)
    ensures
        ({
            let (dw, dh) = downscaled_size(w, h, inline_max(max_dimension));
            &&& max_dimension is None && w > 0 && h > 0 ==> 1 <= dw <= 1568 && 1 <= dh <= 1568
            &&& max_dimension matches Some(m) ==> (m > 0 && w > 0 && h > 0 ==> 1 <= dw <= m && 1 <= dh
                <= m)
            &&& max_dimension == Some(0u32) ==> dw == w && dh == h
        }),
{
    let max = inline_max(max_dimension);
    if !fits_within(w, h, max) {
        let longest = if w >= h {
            w
        } else {
            h
        };
        lemma_scaled_side_bounds(w, max, longest);
        lemma_scaled_side_bounds(h, max, longest);
    }
}

/// The PNG file of the inline image: the screenshot downscaled to the
/// [`inline_max`] (aspect kept, see [`Screenshot::downscale_to`]), then
/// PNG-encoded. The file on disk is written from the full screenshot.
pub fn inline_png(shot: &Screenshot, max_dimension: Option<u32>) -> (r: Result<Vec<u8>, EncodeError>)
    ensures
        ({
            let max = inline_max(max_dimension);
            let (dw, dh) = downscaled_size(shot.spec_width(), shot.spec_height(), max);
            let data = if fits_within(shot.spec_width(), shot.spec_height(), max) {
                shot.spec_data()
            } else {
                resampled(shot.spec_data(), shot.spec_width(), shot.spec_height(), dw, dh)
            };
            png_outcome(dw, dh, data, r)
        }),
        max_dimension is None && shot.spec_width() != 0 && shot.spec_height() != 0 ==> (r matches Ok(
            b,
        ) && png_decoding(b@) matches Ok((pw, ph, color, _)) && 1 <= pw <= 1568 && 1 <= ph <= 1568
            && color == 6),
        max_dimension == Some(0u32) ==> png_outcome(
            shot.spec_width(),
            shot.spec_height(),
            shot.spec_data(),
            r,
        ),
{
    proof {
        lemma_inline_size_capped(shot.spec_width(), shot.spec_height(), max_dimension);
    }
    let max = match max_dimension {
        Some(m) => m,
        None => DEFAULT_INLINE_MAX_DIM,
    };
    let scaled = shot.downscale_to(max);
    scaled.encode_png()
}

/// The standard base64 text of a PNG file, as an MCP image content carries
/// it.
pub fn png_base64(png: &[u8]) -> (s: String)
    requires
        (png@.len() / 3) * 4 + 4 <= usize::MAX,
    ensures
        s@ == base64_text(png@),
{
    base64_standard(png)
}

} // verus!
