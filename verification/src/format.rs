//! Image output formats and their file-name extensions.
use vstd::prelude::*;

verus! {

/// Supported image formats for encoding and saving screenshots.
#[derive(Debug, Clone, Copy, PartialEq, Eq, Structural)]
pub enum ImageFormat {
    /// Portable Network Graphics: lossless, widely supported.
    Png,
    /// Portable Pixmap (P6 binary): raw RGB.
    Ppm,
    /// Portable Graymap (P5 binary): luminance-weighted grayscale.
    Pgm,
}

/// `c` folded to lower case when it is an ASCII capital letter.
pub open spec fn ascii_lower(c: char) -> char {
    if 'A' <= c && c <= 'Z' {
        ((c as u32) + 32) as char
    } else {
        c
    }
}

/// `s` is the three letters `a`, `b`, `c`, ignoring ASCII case.
pub open spec fn is_word3(s: Seq<char>, a: char, b: char, c: char) -> bool {
    &&& s.len() == 3
    &&& ascii_lower(s[0]) == a
    &&& ascii_lower(s[1]) == b
    &&& ascii_lower(s[2]) == c
}

/// The format named by a file-name extension, compared case-insensitively.
pub open spec fn format_of_extension(s: Seq<char>) -> Option<ImageFormat> {
    if is_word3(s, 'p', 'n', 'g') {
        Some(ImageFormat::Png)
    } else if is_word3(s, 'p', 'p', 'm') {
        Some(ImageFormat::Ppm)
    } else if is_word3(s, 'p', 'g', 'm') {
        Some(ImageFormat::Pgm)
    } else {
        None
    }
}

/// Whether `c` is the lower-case ASCII letter `lower` in either case.
fn same_letter(c: char, lower: char, upper: char) -> (r: bool)
    requires
        'a' <= lower <= 'z',
        upper as u32 + 32 == lower as u32,
    ensures
        r == (ascii_lower(c) == lower),
{
    c == lower || c == upper
}

impl ImageFormat {
    /// Detect the format from a file-name extension (case-insensitive).
    ///
    /// Returns `None` for unrecognised extensions.
    pub fn from_extension(ext: &str) -> (r: Option<ImageFormat>)
        ensures
            r == format_of_extension(ext@),
    {
        let n = ext.unicode_len();
        if n != 3 {
            return None;
        }
        let c0 = ext.get_char(0);
        let c1 = ext.get_char(1);
        let c2 = ext.get_char(2);
        if !same_letter(c0, 'p', 'P') {
            return None;
        }
        if same_letter(c1, 'n', 'N') && same_letter(c2, 'g', 'G') {
            Some(ImageFormat::Png)
        } else if same_letter(c1, 'p', 'P') && same_letter(c2, 'm', 'M') {
            Some(ImageFormat::Ppm)
        } else if same_letter(c1, 'g', 'G') && same_letter(c2, 'm', 'M') {
            Some(ImageFormat::Pgm)
        } else {
            None
        }
    }

    /// The format to save under for a path whose extension is `ext`:
    /// the recognised format, or PNG when the extension is absent or
    /// unrecognised.
    pub fn for_extension_or_png(ext: Option<&str>) -> (r: ImageFormat)
        ensures
            r == (match ext {
                Some(e) => match format_of_extension(e@) {
                    Some(f) => f,
                    None => ImageFormat::Png,
                },
                None => ImageFormat::Png,
            }),
    {
        match ext {
            Some(e) => match ImageFormat::from_extension(e) {
                Some(f) => f,
                None => ImageFormat::Png,
            },
            None => ImageFormat::Png,
        }
    }
}

} // verus!

verus! {

/// Detection ignores ASCII case: two extensions that agree letter by letter
/// up to case name the same format.
pub proof fn lemma_extension_case_insensitive(s: Seq<char>, t: Seq<char>)
    requires
        s.len() == t.len(),
        forall|i: int| 0 <= i < s.len() ==> ascii_lower(#[trigger] s[i]) == ascii_lower(t[i]),
    ensures
        format_of_extension(s) == format_of_extension(t),
{
    if s.len() == 3 {
        assert(ascii_lower(s[0]) == ascii_lower(t[0]));
        assert(ascii_lower(s[1]) == ascii_lower(t[1]));
        assert(ascii_lower(s[2]) == ascii_lower(t[2]));
    }
}

} // verus!
