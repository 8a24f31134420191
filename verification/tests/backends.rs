use miniscreenshot::capture::CaptureErrorKind;
use miniscreenshot::desktop::{
    backends_to_try, failure_note, DesktopAttempts, DesktopBackend, DesktopCaptureError, FailureStage,
};
use miniscreenshot::format::ImageFormat;
use miniscreenshot::gpu::{needs_bgra_swap, padded_bytes_per_row, staging_buffer_size, strip_row_padding, TextureFormat};
use miniscreenshot::mcp::{
    inline_message, inline_png, judge_output_path, output_format, png_base64, saved_message, wants_inline_image,
    Format, DEFAULT_INLINE_MAX_DIM, DEFAULT_PORT,
};
use miniscreenshot::portal::{
    check_portal_index, path_of_portal_uri, portal_source_count, screenshot_from_png, screenshot_from_png_frame,
    PortalCaptureError,
};
use miniscreenshot::paths::path_within;
use miniscreenshot::screenshot::Screenshot;
use miniscreenshot::wayland::{
    convert_to_rgba as wayland_convert, global_to_bind, shm_buffer_size, FrameEvent, FrameState, ShmFormat,
    WaitOutcome, WaylandGlobal,
};
use miniscreenshot::x11::{convert_to_rgba as x11_convert, pixmap_bits_per_pixel, ScreenInfo};

// ── wgpu readback ───────────────────────────────────────────────────────────

#[test]
fn padding_aligns_to_256() {
    assert_eq!(padded_bytes_per_row(1), 256);
    assert_eq!(padded_bytes_per_row(64), 256);
    assert_eq!(padded_bytes_per_row(65), 512);
    assert_eq!(padded_bytes_per_row(128), 512);
}

#[test]
fn padding_of_zero_width_and_large_widths() {
    assert_eq!(padded_bytes_per_row(0), 0);
    assert_eq!(padded_bytes_per_row(1920), 7680);
    assert_eq!(padded_bytes_per_row(1000), 4096);
    assert_eq!(staging_buffer_size(4096, 3), 12288);
}

#[test]
fn texture_formats() {
    assert_eq!(needs_bgra_swap(TextureFormat::Rgba8Unorm), Some(false));
    assert_eq!(needs_bgra_swap(TextureFormat::Rgba8UnormSrgb), Some(false));
    assert_eq!(needs_bgra_swap(TextureFormat::Bgra8Unorm), Some(true));
    assert_eq!(needs_bgra_swap(TextureFormat::Bgra8UnormSrgb), Some(true));
    assert_eq!(needs_bgra_swap(TextureFormat::Other), None);
}

#[test]
fn strip_padding_and_swap() {
    // 2×2 pixels, rows padded to 12 bytes.
    let raw = vec![
        1, 2, 3, 4, 5, 6, 7, 8, 99, 99, 99, 99, //
        9, 10, 11, 12, 13, 14, 15, 16, 99, 99, 99, 99,
    ];
    let shot = strip_row_padding(&raw, 2, 2, 12, false);
    assert_eq!(shot.data(), &[1, 2, 3, 4, 5, 6, 7, 8, 9, 10, 11, 12, 13, 14, 15, 16]);
    let shot = strip_row_padding(&raw, 2, 2, 12, true);
    assert_eq!(shot.data(), &[3, 2, 1, 4, 7, 6, 5, 8, 11, 10, 9, 12, 15, 14, 13, 16]);
    assert_eq!((shot.width(), shot.height()), (2, 2));
}

// ── X11 ─────────────────────────────────────────────────────────────────────

#[test]
fn x11_scanline_bytes() {
    let s = ScreenInfo::new(42, 1366, 768, 24, 32);
    assert_eq!(s.bytes_per_line, 5464);
    assert_eq!(s.root_drawable(), 42);
    let s = ScreenInfo::new(1, 3, 1, 24, 24);
    assert_eq!(s.bytes_per_line, 12);
    let s = ScreenInfo::new(1, 1, 1, 1, 1);
    assert_eq!(s.bytes_per_line, 4);
}

#[test]
fn x11_pixmap_format_lookup() {
    let formats = [(1u8, 1u8), (24, 32), (24, 24), (32, 32)];
    assert_eq!(pixmap_bits_per_pixel(&formats, 24), Some(32));
    assert_eq!(pixmap_bits_per_pixel(&formats, 32), Some(32));
    assert_eq!(pixmap_bits_per_pixel(&formats, 16), None);
}

#[test]
fn x11_bgrx32_conversion() {
    let raw = [10u8, 20, 30, 0, 40, 50, 60, 77];
    let shot = x11_convert(&raw, 2, 1, 24, 32, 8).unwrap();
    assert_eq!(shot.data(), &[30, 20, 10, 255, 60, 50, 40, 255]);
    let shot = x11_convert(&raw, 1, 2, 32, 32, 4).unwrap();
    assert_eq!(shot.height(), 2);
}

#[test]
fn x11_bgr24_conversion_with_padding() {
    // 1 pixel per row, rows padded to 4 bytes.
    let raw = [1u8, 2, 3, 0, 4, 5, 6, 0];
    let shot = x11_convert(&raw, 1, 2, 24, 24, 4).unwrap();
    assert_eq!(shot.data(), &[3, 2, 1, 255, 6, 5, 4, 255]);
    // The last row does not fit: no screenshot.
    assert!(x11_convert(&raw[..6], 1, 2, 24, 24, 4).is_none());
}

#[test]
fn x11_unsupported_visual() {
    assert!(x11_convert(&[0u8; 8], 2, 2, 16, 16, 4).is_none());
    assert!(x11_convert(&[0u8; 8], 2, 1, 16, 32, 8).is_none());
}

// ── Wayland ─────────────────────────────────────────────────────────────────

#[test]
fn wayland_registry_bindings() {
    assert_eq!(global_to_bind("zwlr_screencopy_manager_v1", 5), Some((WaylandGlobal::ScreencopyManager, 3)));
    assert_eq!(global_to_bind("zwlr_screencopy_manager_v1", 2), Some((WaylandGlobal::ScreencopyManager, 2)));
    assert_eq!(global_to_bind("wl_shm", 2), Some((WaylandGlobal::Shm, 1)));
    assert_eq!(global_to_bind("wl_output", 4), Some((WaylandGlobal::Output, 4)));
    assert_eq!(global_to_bind("wl_output", 9), Some((WaylandGlobal::Output, 4)));
    assert_eq!(global_to_bind("wl_seat", 9), None);
}

#[test]
fn wayland_first_known_buffer_wins() {
    let mut f = FrameState::new();
    assert_eq!(f.buffer_phase(), WaitOutcome::Continue);
    f.handle_event(FrameEvent::Buffer { format: None, width: 9, height: 9, stride: 36 });
    assert_eq!(f.shm_format, None);
    f.handle_event(FrameEvent::Buffer { format: Some(ShmFormat::Xrgb8888), width: 640, height: 480, stride: 2560 });
    f.handle_event(FrameEvent::Buffer { format: Some(ShmFormat::Argb8888), width: 1, height: 1, stride: 4 });
    assert_eq!(f.shm_format, Some(ShmFormat::Xrgb8888));
    assert_eq!((f.width, f.height, f.stride), (640, 480, 2560));
    f.handle_event(FrameEvent::BufferDone);
    assert_eq!(f.buffer_phase(), WaitOutcome::Proceed);
    assert_eq!(f.copy_phase(), WaitOutcome::Continue);
    f.handle_event(FrameEvent::Other);
    f.handle_event(FrameEvent::Ready);
    assert_eq!(f.copy_phase(), WaitOutcome::Proceed);
    f.handle_event(FrameEvent::Failed);
    assert_eq!(f.copy_phase(), WaitOutcome::Fail);
    assert_eq!(f.buffer_phase(), WaitOutcome::Fail);
    assert_eq!(shm_buffer_size(f.stride, f.height), 1228800);
}

#[test]
fn wayland_conversion() {
    // 1 pixel per row, rows of 8 bytes; little-endian [B, G, R, A].
    let raw = [1u8, 2, 3, 4, 0, 0, 0, 0, 5, 6, 7, 8];
    let shot = wayland_convert(&raw, 1, 2, 8, ShmFormat::Argb8888).unwrap();
    assert_eq!(shot.data(), &[3, 2, 1, 4, 7, 6, 5, 8]);
    let shot = wayland_convert(&raw, 1, 2, 8, ShmFormat::Xrgb8888).unwrap();
    assert_eq!(shot.data(), &[3, 2, 1, 255, 7, 6, 5, 255]);
    assert!(wayland_convert(&raw, 2, 2, 8, ShmFormat::Argb8888).is_none());
    assert!(wayland_convert(&raw, 1, 2, 8, ShmFormat::Other(7)).is_none());
    let empty = wayland_convert(&raw, 3, 0, 8, ShmFormat::Other(7)).unwrap();
    assert_eq!((empty.width(), empty.height()), (3, 0));
}

// ── Portal ──────────────────────────────────────────────────────────────────

#[test]
fn portal_uri_scheme() {
    assert_eq!(path_of_portal_uri("file:///tmp/a.png").unwrap(), b"/tmp/a.png".to_vec());
    match path_of_portal_uri("https://example.org/a.png") {
        Err(PortalCaptureError::UnsupportedScheme(u)) => assert_eq!(u, "https://example.org/a.png"),
        _ => panic!("expected UnsupportedScheme"),
    }
}

#[test]
fn portal_uri_path_is_percent_decoded() {
    assert_eq!(
        path_of_portal_uri("file:///run/user/1000/Screenshot%20from%202024.png").unwrap(),
        b"/run/user/1000/Screenshot from 2024.png".to_vec()
    );
    assert_eq!(path_of_portal_uri("file:///a%2fb%C3%A9").unwrap(), vec![b'/', b'a', b'/', b'b', 0xC3, 0xA9]);
    // A `%` without two hex digits after it stands for itself.
    assert_eq!(path_of_portal_uri("file:///100%.png").unwrap(), b"/100%.png".to_vec());
    assert_eq!(path_of_portal_uri("file:///x%4").unwrap(), b"/x%4".to_vec());
    assert_eq!(path_of_portal_uri("file:///x%g1").unwrap(), b"/x%g1".to_vec());
}

#[test]
fn portal_uri_hosts_and_schemes() {
    assert_eq!(path_of_portal_uri("file://localhost/tmp/a.png").unwrap(), b"/tmp/a.png".to_vec());
    assert_eq!(path_of_portal_uri("FILE://LocalHost/tmp/a.png").unwrap(), b"/tmp/a.png".to_vec());
    assert_eq!(path_of_portal_uri("file:/tmp/a.png").unwrap(), b"/tmp/a.png".to_vec());
    assert_eq!(path_of_portal_uri("file://localhost").unwrap(), b"/".to_vec());
    assert_eq!(path_of_portal_uri("file:tmp/a.png").unwrap(), b"/tmp/a.png".to_vec());
    assert_eq!(path_of_portal_uri("file:///tmp/a.png?size=2#top").unwrap(), b"/tmp/a.png".to_vec());
    assert_eq!(path_of_portal_uri("file:///tmp/a%3Fb.png").unwrap(), b"/tmp/a?b.png".to_vec());
    for uri in ["file://example.org/tmp/a.png", "files:///a", "file", "/tmp/a.png", "fi?le:///a"] {
        match path_of_portal_uri(uri) {
            Err(PortalCaptureError::UnsupportedScheme(u)) => assert_eq!(u, uri),
            _ => panic!("expected UnsupportedScheme for {uri}"),
        }
    }
}

#[test]
fn portal_decodes_png_written_by_encoder() {
    let shot = Screenshot::from_rgba(2, 1, vec![1, 2, 3, 4, 5, 6, 7, 8]);
    let png = shot.encode_png().unwrap();
    let back = screenshot_from_png(&png).unwrap().unwrap();
    assert_eq!((back.width(), back.height()), (2, 1));
    assert_eq!(back.data(), shot.data());
}

#[test]
fn portal_rejects_garbage() {
    match screenshot_from_png(b"not a png") {
        Some(Err(PortalCaptureError::DecodePng(m))) => assert!(!m.is_empty()),
        _ => panic!("expected a decode error"),
    }
}

#[test]
fn portal_frames_by_color_type() {
    let shot = screenshot_from_png_frame(1, 1, 2, vec![9, 8, 7]).unwrap();
    assert_eq!(shot.data(), &[9, 8, 7, 255]);
    let shot = screenshot_from_png_frame(1, 1, 6, vec![9, 8, 7, 6]).unwrap();
    assert_eq!(shot.data(), &[9, 8, 7, 6]);
    match screenshot_from_png_frame(1, 1, 0, vec![9]) {
        Err(e) => assert_eq!(e.to_message(), "PNG decode error: unsupported PNG color type: Grayscale"),
        Ok(_) => panic!("grayscale must be refused"),
    }
}

#[test]
fn portal_error_conversions() {
    let e = PortalCaptureError::PortalCancelled;
    assert_eq!(e.to_message(), "Screenshot request was cancelled by the user");
    let c = e.to_capture_error();
    assert_eq!(c.kind(), CaptureErrorKind::Cancelled);
    assert_eq!(c.to_message(), "Cancelled by user: screenshot request was cancelled by the user");
    let c = PortalCaptureError::Portal("no bus".to_string()).to_capture_error();
    assert_eq!(c.kind(), CaptureErrorKind::Backend);
    assert_eq!(c.to_message(), "Backend failure: portal error: no bus");
    assert_eq!(c.source_text(), Some("Portal error: no bus"));
    let c = PortalCaptureError::Io("denied".to_string()).to_capture_error();
    assert_eq!(c.kind(), CaptureErrorKind::Io);
    assert_eq!(c.source_text(), Some("I/O error: denied"));
    let c = PortalCaptureError::UnsupportedScheme("http://x".to_string()).to_capture_error();
    assert_eq!(c.kind(), CaptureErrorKind::Unsupported);
    assert_eq!(c.to_message(), "Unsupported operation: unsupported URI scheme: http://x");
    let c = PortalCaptureError::DecodePng("bad".to_string()).to_capture_error();
    assert_eq!(c.kind(), CaptureErrorKind::Decode);
    assert_eq!(c.source_text(), None);
}

#[test]
fn portal_single_source() {
    assert_eq!(portal_source_count(), 1);
    assert!(check_portal_index(0).is_ok());
    let e = check_portal_index(1).unwrap_err();
    assert_eq!(e.kind(), CaptureErrorKind::Unsupported);
    assert_eq!(e.to_message(), "Unsupported operation: portal only supports a single capture (index 0)");
}

// ── Desktop ─────────────────────────────────────────────────────────────────

#[test]
fn desktop_backend_order() {
    assert_eq!(backends_to_try(true, true), vec![DesktopBackend::Wayland, DesktopBackend::X11, DesktopBackend::Portal]);
    assert_eq!(backends_to_try(false, true), vec![DesktopBackend::X11, DesktopBackend::Portal]);
    assert_eq!(backends_to_try(true, false), vec![DesktopBackend::Wayland, DesktopBackend::Portal]);
    assert_eq!(backends_to_try(false, false), vec![DesktopBackend::Portal]);
}

#[test]
fn desktop_failure_report() {
    let notes = vec![
        failure_note(DesktopBackend::Wayland, FailureStage::Connect, "no display"),
        failure_note(DesktopBackend::X11, FailureStage::Capture, "bad visual"),
        failure_note(DesktopBackend::Portal, FailureStage::Capture, "cancelled"),
    ];
    assert_eq!(notes[0], "Wayland (connect): no display");
    let e = DesktopCaptureError::AllBackendsFailed(notes);
    assert_eq!(
        e.to_message(),
        "all screenshot backends failed:\n  - Wayland (connect): no display\n  - X11: bad visual\n  - Portal: cancelled"
    );
    assert_eq!(DesktopCaptureError::AllBackendsFailed(Vec::new()).to_message(), "all screenshot backends failed:");
}

#[test]
fn desktop_attempts_walk_the_order() {
    let mut a = DesktopAttempts::new(true, false);
    assert_eq!(a.current(), Some(DesktopBackend::Wayland));
    a.record_failure(FailureStage::Connect, "no compositor");
    assert_eq!(a.current(), Some(DesktopBackend::Portal));
    a.record_failure(FailureStage::Capture, "cancelled");
    assert_eq!(a.current(), None);
    assert_eq!(
        a.into_error().to_message(),
        "all screenshot backends failed:\n  - Wayland (connect): no compositor\n  - Portal: cancelled"
    );
}

#[test]
fn desktop_attempts_portal_only() {
    let mut a = DesktopAttempts::new(false, false);
    assert_eq!(a.current(), Some(DesktopBackend::Portal));
    a.record_failure(FailureStage::Capture, "denied");
    assert_eq!(a.current(), None);
    match a.into_error() {
        DesktopCaptureError::AllBackendsFailed(notes) => assert_eq!(notes, vec!["Portal: denied".to_string()]),
    }
}

// ── MCP ─────────────────────────────────────────────────────────────────────

#[test]
fn mcp_output_format() {
    assert_eq!(output_format(None, Some("png")), ImageFormat::Png);
    assert_eq!(output_format(None, Some("ppm")), ImageFormat::Ppm);
    assert_eq!(output_format(None, Some("pgm")), ImageFormat::Pgm);
    assert_eq!(output_format(None, Some("xyz")), ImageFormat::Png);
    assert_eq!(output_format(None, None), ImageFormat::Png);
    assert_eq!(output_format(Some(Format::Ppm), Some("png")), ImageFormat::Ppm);
    assert_eq!(Format::Pgm.to_image_format(), ImageFormat::Pgm);
}

#[test]
fn mcp_inline_choice_and_texts() {
    assert!(wants_inline_image(false, false));
    assert!(!wants_inline_image(false, true));
    assert!(wants_inline_image(true, true));
    assert_eq!(inline_message(4, 2), "Captured 4x2; returned inline (not saved to disk).");
    assert_eq!(
        saved_message("/tmp/shot.png", 1920, 1080, 123456, ImageFormat::Png),
        "Screenshot saved to /tmp/shot.png (1920x1080, 123456 bytes, Png)"
    );
    assert_eq!(DEFAULT_PORT, 8731);
    assert_eq!(DEFAULT_INLINE_MAX_DIM, 1568);
}

// ── MCP output paths ────────────────────────────────────────────────────────

/// The verdict on `path` when its parent `/tmp/shots` is a writable
/// directory, with the given allowed root and existence answer.
fn judge_in_tmp(
    path: &str,
    root: Option<Result<(&[u8], &str), &str>>,
    exists: Result<bool, &str>,
    format_override: Option<Format>,
    ext: Option<&str>,
) -> Result<ImageFormat, String> {
    judge_output_path(path, true, Ok(b"/tmp/shots"), true, true, root, exists, format_override, ext)
}

#[test]
fn validate_rejects_empty_path() {
    let r = judge_output_path("", false, Err(""), false, false, None, Ok(false), None, None);
    assert_eq!(r, Err("path must not be empty".to_string()));
}

#[test]
fn validate_rejects_nonexistent_parent() {
    let r = judge_output_path(
        "/nonexistent/dir/screenshot.png",
        true,
        Err("No such file or directory (os error 2)"),
        false,
        false,
        None,
        Ok(false),
        None,
        Some("png"),
    );
    assert_eq!(
        r,
        Err("parent directory does not exist or is not accessible: No such file or directory (os error 2)".to_string())
    );
}

#[test]
fn validate_rejects_existing_file() {
    let r = judge_in_tmp("/tmp/shots/existing.png", None, Ok(true), None, Some("png"));
    let err = r.unwrap_err();
    assert!(err.contains("already exists"));
    assert_eq!(err, "file or directory already exists: /tmp/shots/existing.png");
}

#[test]
fn validate_accepts_happy_path_png() {
    assert_eq!(judge_in_tmp("/tmp/shots/shot.png", None, Ok(false), None, Some("png")), Ok(ImageFormat::Png));
}

#[test]
fn validate_infers_ppm_format() {
    assert_eq!(judge_in_tmp("/tmp/shots/shot.ppm", None, Ok(false), None, Some("ppm")), Ok(ImageFormat::Ppm));
}

#[test]
fn validate_infers_pgm_format() {
    assert_eq!(judge_in_tmp("/tmp/shots/shot.pgm", None, Ok(false), None, Some("pgm")), Ok(ImageFormat::Pgm));
}

#[test]
fn validate_defaults_to_png_for_unknown_extension() {
    assert_eq!(judge_in_tmp("/tmp/shots/shot.xyz", None, Ok(false), None, Some("xyz")), Ok(ImageFormat::Png));
}

#[test]
fn validate_format_override_wins() {
    assert_eq!(
        judge_in_tmp("/tmp/shots/shot.png", None, Ok(false), Some(Format::Ppm), Some("png")),
        Ok(ImageFormat::Ppm)
    );
}

#[test]
fn validate_respects_allowed_root() {
    let inside = judge_output_path(
        "/srv/root/inside.png",
        true,
        Ok(b"/srv/root"),
        true,
        true,
        Some(Ok((b"/srv/root", "/srv/root"))),
        Ok(false),
        None,
        Some("png"),
    );
    assert_eq!(inside, Ok(ImageFormat::Png));
    let outside = judge_output_path(
        "/tmp/other/outside.png",
        true,
        Ok(b"/tmp/other"),
        true,
        true,
        Some(Ok((b"/srv/root", "/srv/root"))),
        Ok(false),
        None,
        Some("png"),
    );
    let err = outside.unwrap_err();
    assert!(err.contains("outside the allowed root"));
    assert_eq!(err, "path is outside the allowed root '/srv/root'");
}

#[test]
fn output_path_other_refusals() {
    let no_parent = judge_output_path("/", false, Err(""), false, false, None, Ok(false), None, None);
    assert_eq!(no_parent, Err("path has no parent directory".to_string()));
    let not_dir = judge_output_path("/etc/passwd/x.png", true, Ok(b"/etc/passwd"), false, false, None, Ok(false), None, Some("png"));
    assert_eq!(not_dir, Err("parent path is not a directory".to_string()));
    let read_only = judge_output_path("/usr/x.png", true, Ok(b"/usr"), true, false, None, Ok(false), None, Some("png"));
    assert_eq!(read_only, Err("parent directory is not writable".to_string()));
    let bad_root = judge_in_tmp("/tmp/shots/x.png", Some(Err("gone")), Ok(false), None, Some("png"));
    assert_eq!(bad_root, Err("allowed_root does not exist: gone".to_string()));
    let unknown = judge_in_tmp("/tmp/shots/x.png", None, Err("denied"), None, Some("png"));
    assert_eq!(unknown, Err("cannot check if path exists: denied".to_string()));
    // A sibling directory whose name merely starts with the root's name is outside it.
    let sibling = judge_output_path(
        "/srv/rootkit/x.png",
        true,
        Ok(b"/srv/rootkit"),
        true,
        true,
        Some(Ok((b"/srv/root", "/srv/root"))),
        Ok(false),
        None,
        Some("png"),
    );
    assert_eq!(sibling, Err("path is outside the allowed root '/srv/root'".to_string()));
}

#[test]
fn path_within_compares_whole_components() {
    assert!(path_within(b"/srv/root", b"/srv/root"));
    assert!(path_within(b"/srv/root", b"/srv/root/a/b"));
    assert!(path_within(b"/srv/root/", b"/srv//root/./a"));
    assert!(path_within(b"/", b"/anything"));
    assert!(!path_within(b"/srv/root", b"/srv/rootkit"));
    assert!(!path_within(b"/srv/root/a", b"/srv/root"));
    assert!(!path_within(b"/srv/root", b"srv/root/a"));
    assert!(path_within(b"./a", b"./a/b"));
    assert!(!path_within(b"./a", b"a/b"));
    assert!(path_within(b"a", b"a/../b"));
}

// ── MCP inline image ────────────────────────────────────────────────────────

#[test]
fn png_base64_matches_rfc_vectors() {
    assert_eq!(png_base64(b""), "");
    assert_eq!(png_base64(b"f"), "Zg==");
    assert_eq!(png_base64(b"fo"), "Zm8=");
    assert_eq!(png_base64(b"foo"), "Zm9v");
    assert_eq!(png_base64(b"foobar"), "Zm9vYmFy");
    assert_eq!(png_base64(&[0xfb, 0xff]), "+/8=");
}

#[test]
fn downscale_keeps_aspect_and_caps_longest_side() {
    let data: Vec<u8> = (0..4 * 2 * 4).map(|i| i as u8).collect();
    let shot = Screenshot::from_rgba(4, 2, data);
    let small = shot.downscale_to(2);
    assert_eq!((small.width(), small.height()), (2, 1));
    // Pixel (x, y) takes source pixel (2x, 2y).
    assert_eq!(small.data(), &[0, 1, 2, 3, 8, 9, 10, 11]);
    let tiny = shot.downscale_to(1);
    assert_eq!((tiny.width(), tiny.height()), (1, 1));
    assert_eq!(tiny.data(), &[0, 1, 2, 3]);
    assert_eq!(shot.downscale_to(0).data(), shot.data());
    assert_eq!(shot.downscale_to(4).data(), shot.data());
    let tall = Screenshot::from_rgba(3, 10, vec![7; 3 * 10 * 4]);
    let t = tall.downscale_to(5);
    assert_eq!((t.width(), t.height()), (1, 5));
}

#[test]
fn inline_png_is_downscaled_file_full_size() {
    let shot = Screenshot::from_rgba(4, 2, vec![128u8; 4 * 2 * 4]);
    let png = inline_png(&shot, Some(1)).unwrap();
    let reader = png::Decoder::new(png.as_slice()).read_info().unwrap();
    assert_eq!((reader.info().width, reader.info().height), (1, 1));
    let full = inline_png(&shot, Some(0)).unwrap();
    let reader = png::Decoder::new(full.as_slice()).read_info().unwrap();
    assert_eq!((reader.info().width, reader.info().height), (4, 2));
    let default = inline_png(&shot, None).unwrap();
    assert_eq!(default, shot.encode_png().unwrap());
    assert!(DEFAULT_INLINE_MAX_DIM > 4);
}
