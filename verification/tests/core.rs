use miniscreenshot::capture::{Capture, CaptureError, CaptureErrorKind, MultiCapture};
use miniscreenshot::format::ImageFormat;
use miniscreenshot::screenshot::{EncodeError, SaveError, Screenshot};

/// A minimal 2×2 RGBA image: red, green, blue, white.
fn sample_2x2() -> Screenshot {
    let data = vec![
        255, 0, 0, 255, // red
        0, 255, 0, 255, // green
        0, 0, 255, 255, // blue
        255, 255, 255, 255, // white
    ];
    Screenshot::from_rgba(2, 2, data)
}

#[test]
fn from_rgba_dimensions() {
    let shot = sample_2x2();
    assert_eq!(shot.width(), 2);
    assert_eq!(shot.height(), 2);
    assert_eq!(shot.data().len(), 16);
}

#[test]
fn from_rgb_promotes_alpha() {
    let rgb = vec![255u8, 0, 0, 0, 255, 0]; // 2×1 red|green
    let shot = Screenshot::from_rgb(2, 1, &rgb);
    assert_eq!(shot.data(), &[255, 0, 0, 255, 0, 255, 0, 255]);
}

#[test]
fn encode_ppm_header() {
    let ppm = sample_2x2().encode_ppm();
    assert!(ppm.starts_with(b"P6\n2 2\n255\n"));
}

#[test]
fn encode_ppm_body() {
    let shot = Screenshot::from_rgba(1, 1, vec![10, 20, 30, 255]);
    let ppm = shot.encode_ppm();
    let header = b"P6\n1 1\n255\n";
    assert_eq!(&ppm[..header.len()], header);
    assert_eq!(&ppm[header.len()..], &[10, 20, 30]);
}

#[test]
fn encode_pgm_header() {
    let pgm = sample_2x2().encode_pgm();
    assert!(pgm.starts_with(b"P5\n2 2\n255\n"));
}

#[test]
fn encode_pgm_pure_white_is_255() {
    let shot = Screenshot::from_rgba(1, 1, vec![255, 255, 255, 255]);
    let pgm = shot.encode_pgm();
    let header = b"P5\n1 1\n255\n";
    assert_eq!(*pgm.last().unwrap(), 255u8);
    assert_eq!(pgm.len(), header.len() + 1);
}

#[test]
fn encode_pgm_pure_black_is_0() {
    let shot = Screenshot::from_rgba(1, 1, vec![0, 0, 0, 255]);
    let pgm = shot.encode_pgm();
    assert_eq!(*pgm.last().unwrap(), 0u8);
}

#[test]
fn encode_png_valid_magic() {
    let png = sample_2x2().encode_png().unwrap();
    assert_eq!(&png[..8], &[137, 80, 78, 71, 13, 10, 26, 10]);
}

#[test]
fn encode_png_round_trip() {
    let original = sample_2x2();
    let png_bytes = original.encode_png().unwrap();

    let decoder = png::Decoder::new(png_bytes.as_slice());
    let mut reader = decoder.read_info().unwrap();
    let mut decoded = vec![0u8; reader.output_buffer_size()];
    let info = reader.next_frame(&mut decoded).unwrap();
    decoded.truncate(info.buffer_size());

    assert_eq!(decoded, original.data());
}

#[test]
fn format_from_extension() {
    assert_eq!(ImageFormat::from_extension("png"), Some(ImageFormat::Png));
    assert_eq!(ImageFormat::from_extension("PNG"), Some(ImageFormat::Png));
    assert_eq!(ImageFormat::from_extension("ppm"), Some(ImageFormat::Ppm));
    assert_eq!(ImageFormat::from_extension("pgm"), Some(ImageFormat::Pgm));
    assert_eq!(ImageFormat::from_extension("jpg"), None);
}

// ── Further cases ───────────────────────────────────────────────────────────

#[test]
fn format_from_extension_mixed_case_and_near_misses() {
    assert_eq!(ImageFormat::from_extension("PpM"), Some(ImageFormat::Ppm));
    assert_eq!(ImageFormat::from_extension("pGm"), Some(ImageFormat::Pgm));
    assert_eq!(ImageFormat::from_extension(""), None);
    assert_eq!(ImageFormat::from_extension("pngx"), None);
    assert_eq!(ImageFormat::from_extension("pn"), None);
    assert_eq!(ImageFormat::from_extension("pgn"), None);
    assert_eq!(ImageFormat::from_extension("ṗng"), None);
}

#[test]
fn save_format_defaults_to_png() {
    assert_eq!(ImageFormat::for_extension_or_png(None), ImageFormat::Png);
    assert_eq!(ImageFormat::for_extension_or_png(Some("xyz")), ImageFormat::Png);
    assert_eq!(ImageFormat::for_extension_or_png(Some("PGM")), ImageFormat::Pgm);
    assert_eq!(ImageFormat::for_extension_or_png(Some("ppm")), ImageFormat::Ppm);
}

#[test]
fn encode_ppm_full_body_and_multidigit_header() {
    let mut data = Vec::new();
    for i in 0..(12u32 * 10) {
        data.extend_from_slice(&[i as u8, (i * 2) as u8, (i * 3) as u8, 7]);
    }
    let shot = Screenshot::from_rgba(12, 10, data.clone());
    let ppm = shot.encode_ppm();
    let header = b"P6\n12 10\n255\n";
    assert_eq!(&ppm[..header.len()], header);
    let body: Vec<u8> = data.chunks_exact(4).flat_map(|p| [p[0], p[1], p[2]]).collect();
    assert_eq!(&ppm[header.len()..], body.as_slice());
}

#[test]
fn encode_pgm_luma_values() {
    let shot = Screenshot::from_rgba(
        4,
        1,
        vec![255, 0, 0, 9, 0, 255, 0, 9, 0, 0, 255, 9, 8, 80, 32, 9],
    );
    let pgm = shot.encode_pgm();
    let header = b"P5\n4 1\n255\n";
    assert_eq!(&pgm[..header.len()], header);
    // 0.299·255 = 76.245, 0.587·255 = 149.685, 0.114·255 = 29.07,
    // 0.299·8 + 0.587·80 + 0.114·32 = 53 exactly.
    assert_eq!(&pgm[header.len()..], &[76, 149, 29, 53]);
}

#[test]
fn gray_levels_are_kept_by_pgm() {
    let mut data = Vec::new();
    for v in 0..=255u8 {
        data.extend_from_slice(&[v, v, v, 255]);
    }
    let shot = Screenshot::from_rgba(256, 1, data);
    let pgm = shot.encode_pgm();
    let header = b"P5\n256 1\n255\n";
    let expected: Vec<u8> = (0..=255u8).collect();
    assert_eq!(&pgm[header.len()..], expected.as_slice());
}

#[test]
fn encode_dispatches_on_format() {
    let shot = sample_2x2();
    assert_eq!(shot.encode(ImageFormat::Ppm).unwrap(), shot.encode_ppm());
    assert_eq!(shot.encode(ImageFormat::Pgm).unwrap(), shot.encode_pgm());
    assert_eq!(shot.encode(ImageFormat::Png).unwrap(), shot.encode_png().unwrap());
}

#[test]
fn encode_png_refuses_empty_image() {
    let shot = Screenshot::from_rgba(0, 3, Vec::new());
    match shot.encode_png() {
        Err(EncodeError::Png(m)) => assert_eq!(m, "Zero width not allowed"),
        Ok(_) => panic!("zero width must be refused"),
    }
    let shot = Screenshot::from_rgba(3, 0, Vec::new());
    match shot.encode(ImageFormat::Png) {
        Err(e) => assert_eq!(e.to_message(), "PNG encoding error: Zero height not allowed"),
        Ok(_) => panic!("zero height must be refused"),
    }
}

#[test]
fn into_data_and_clone_keep_pixels() {
    let shot = sample_2x2();
    let copy = shot.clone();
    assert_eq!(copy.width(), 2);
    assert_eq!(copy.data(), shot.data());
    assert_eq!(shot.into_data().len(), 16);
}

#[test]
fn save_error_messages() {
    let e = SaveError::Io("disk full".to_string());
    assert_eq!(e.to_message(), "I/O error: disk full");
    let e = SaveError::Encode(EncodeError::Png("bad".to_string()));
    assert_eq!(e.to_message(), "Encoding error: PNG encoding error: bad");
}

#[test]
fn capture_error_kind_texts() {
    assert_eq!(CaptureErrorKind::Connect.as_str(), "Connection error");
    assert_eq!(CaptureErrorKind::Unsupported.as_str(), "Unsupported operation");
    assert_eq!(CaptureErrorKind::Cancelled.as_str(), "Cancelled by user");
    assert_eq!(CaptureErrorKind::Backend.as_str(), "Backend failure");
    assert_eq!(CaptureErrorKind::Io.as_str(), "I/O error");
    assert_eq!(CaptureErrorKind::Decode.as_str(), "Decode error");
    assert_eq!(CaptureErrorKind::Other.as_str(), "Other error");
}

#[test]
fn capture_error_message_and_source() {
    let e = CaptureError::new(CaptureErrorKind::Backend, "gpu lost");
    assert_eq!(e.kind(), CaptureErrorKind::Backend);
    assert_eq!(e.to_message(), "Backend failure: gpu lost");
    assert_eq!(e.source_text(), None);
    let e = e.with_source("device removed".to_string());
    assert_eq!(e.kind(), CaptureErrorKind::Backend);
    assert_eq!(e.to_message(), "Backend failure: gpu lost");
    assert_eq!(e.source_text(), Some("device removed"));
}

/// Three sources; the one at `fail_at` fails.
struct Screens {
    fail_at: usize,
    calls: Vec<usize>,
}

impl Capture for Screens {
    type Error = String;
    fn capture(&mut self) -> Result<Screenshot, String> {
        self.capture_index(0)
    }
}

impl MultiCapture for Screens {
    fn source_count(&self) -> usize {
        3
    }
    fn capture_index(&mut self, index: usize) -> Result<Screenshot, String> {
        self.calls.push(index);
        if index == self.fail_at {
            Err(format!("screen {index} failed"))
        } else {
            Ok(Screenshot::from_rgba(1, 1, vec![index as u8, 0, 0, 255]))
        }
    }
}

#[test]
fn capture_all_collects_in_order() {
    let mut s = Screens { fail_at: 99, calls: Vec::new() };
    let shots = s.capture_all().unwrap();
    assert_eq!(shots.len(), 3);
    assert_eq!(shots[2].data(), &[2, 0, 0, 255]);
    assert_eq!(s.calls, vec![0, 1, 2]);
}

#[test]
fn capture_all_stops_at_first_failure() {
    let mut s = Screens { fail_at: 1, calls: Vec::new() };
    assert_eq!(s.capture_all().unwrap_err(), "screen 1 failed");
    assert_eq!(s.calls, vec![0, 1]);
}

/// Capture through any `Capture` source, as a generic caller would.
fn capture_from<C: Capture>(source: &mut C) -> Result<Screenshot, C::Error> {
    source.capture()
}

#[test]
fn closure_is_a_capture_source() {
    let mut frames: u8 = 0;
    let mut cap = || -> Result<Screenshot, String> {
        frames += 1;
        Ok(Screenshot::from_rgba(1, 1, vec![frames, 0, 0, 255]))
    };
    assert_eq!(capture_from(&mut cap).unwrap().data(), &[1, 0, 0, 255]);
    assert_eq!(capture_from(&mut cap).unwrap().data(), &[2, 0, 0, 255]);
    let mut failing = || -> Result<Screenshot, String> { Err("no surface".to_string()) };
    assert_eq!(capture_from(&mut failing).unwrap_err(), "no surface");
}

#[test]
fn png_encoding_succeeds_for_any_nonzero_size() {
    for (w, h) in [(1u32, 1u32), (3, 1), (1, 3), (17, 5)] {
        let data: Vec<u8> = (0..w * h * 4).map(|i| (i % 251) as u8).collect();
        let shot = Screenshot::from_rgba(w, h, data.clone());
        let png = shot.encode(ImageFormat::Png).unwrap();
        assert_eq!(&png[..8], &[137, 80, 78, 71, 13, 10, 26, 10]);
        let decoder = png::Decoder::new(png.as_slice());
        let mut reader = decoder.read_info().unwrap();
        let mut buf = vec![0u8; reader.output_buffer_size()];
        let info = reader.next_frame(&mut buf).unwrap();
        assert_eq!((info.width, info.height), (w, h));
        assert_eq!(info.color_type, png::ColorType::Rgba);
        assert_eq!(&buf[..info.buffer_size()], data.as_slice());
    }
}
