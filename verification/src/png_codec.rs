//! The PNG codec of the `png` crate, behind trusted wrappers.
use vstd::prelude::*;

verus! {

/// The bytes that the `png` crate writes for an 8-bit RGBA image of the
/// given size and pixel data, with its default encoder options.
pub uninterp spec fn png_rgba8_encoding(width: u32, height: u32, data: Seq<u8>) -> Seq<u8>;

/// What the `png` crate's decoder reads from a file's bytes: on success the
/// first frame's width, height, output color-type code (the PNG IHDR code:
/// 0 grayscale, 2 RGB, 3 indexed, 4 grayscale+alpha, 6 RGBA) and the frame's
/// decoded bytes; on failure the text of the decoding error.
pub uninterp spec fn png_decoding(bytes: Seq<u8>) -> Result<(u32, u32, u8, Seq<u8>), Seq<char>>;

/// The most bytes that `png::Decoder::new` lets a decoder allocate: its
/// default limit of 64 MiB.
pub open spec fn png_decoder_default_limit() -> int {
    67108864int
}

/// The eight-byte PNG file signature.
pub open spec fn png_signature() -> Seq<u8> {
    seq![137u8, 80u8, 78u8, 71u8, 13u8, 10u8, 26u8, 10u8]
}

/// Encodes an 8-bit RGBA image with `png::Encoder` (`write_header` then
/// `write_image_data`).
///
/// Claimed of the outside code: a zero width or height is refused by
/// `write_header` with the texts "Zero width not allowed" / "Zero height not
/// allowed" (`Writer::init` checks width first); any other size succeeds,
/// since `write_header` refuses nothing else for 8-bit RGBA and
/// `write_image_data` refuses only a data length that `requires` rules out.
/// A successful result is the named encoding and starts with the PNG
/// signature that `write_header` writes first. When one RGBA row fits the
/// decoder's default 64 MiB limit (which `read_info` reserves one output
/// row against, and which nothing else of such a file draws on before),
/// the file decodes, with no transformations, to an RGBA frame of the same
/// size and pixel bytes; for wider rows the default decoder refuses it, and
/// nothing is claimed of decoding.
#[verifier::external_body]
pub(crate) fn png_encode_rgba8(width: u32, height: u32, data: &[u8]) -> (r: Result<Vec<u8>, String>)
    requires
        data@.len() == width * height * 4,
    ensures
        match r {
            Ok(bytes) => {
                &&& width != 0
                &&& height != 0
                &&& bytes@ == png_rgba8_encoding(width, height, data@)
                &&& bytes@.len() >= 8
                &&& bytes@.take(8) == png_signature()
                &&& width * 4 <= png_decoder_default_limit() ==> png_decoding(bytes@) == Ok::<
                    (u32, u32, u8, Seq<u8>),
                    Seq<char>,
                >((width, height, 6u8, data@))
            },
            Err(m) => (width == 0 && m@ == "Zero width not allowed"@) || (width != 0 && height == 0
                && m@ == "Zero height not allowed"@),
        },
{
    let mut buf = Vec::new();
    {
        let mut encoder = png::Encoder::new(&mut buf, width, height);
        encoder.set_color(png::ColorType::Rgba);
        encoder.set_depth(png::BitDepth::Eight);
        let mut writer = encoder.write_header().map_err(|e| e.to_string())?;
        writer.write_image_data(data).map_err(|e| e.to_string())?;
    }
    Ok(buf)
}

/// Decodes the first frame of a PNG file with `png::Decoder` (`read_info`,
/// then `next_frame` into a buffer of `output_buffer_size()` bytes, cut to
/// the frame's `buffer_size()`), with no output transformations.
///
/// Claimed of the outside code: the result is the named decoding of the
/// bytes, and a color-type code is one of the five that `png::ColorType`
/// defines. Nothing is claimed of how the decoded length relates to the
/// size.
#[verifier::external_body]
pub(crate) fn png_decode(bytes: &[u8]) -> (r: Result<(u32, u32, u8, Vec<u8>), String>)
    ensures
        match r {
            Ok((w, h, c, d)) => png_decoding(bytes@) == Ok::<(u32, u32, u8, Seq<u8>), Seq<char>>(
                (w, h, c, d@),
            ) && (c == 0 || c == 2 || c == 3 || c == 4 || c == 6),
            Err(m) => png_decoding(bytes@) == Err::<(u32, u32, u8, Seq<u8>), Seq<char>>(m@),
        },
{
    let mut reader = png::Decoder::new(bytes).read_info().map_err(|e| e.to_string())?;
    let mut img = vec![0u8; reader.output_buffer_size()];
    let info = reader.next_frame(&mut img).map_err(|e| e.to_string())?;
    img.truncate(info.buffer_size());
    Ok((info.width, info.height, info.color_type as u8, img))
}

} // verus!
