use miniscreenshot::capture::{Capture, CaptureErrorKind};
use miniscreenshot::softbuffer::{capture, capture_argb, SoftbufferCapture, SoftbufferCaptureError, SoftbufferPixelFormat};

#[test]
fn xrgb_pure_red() {
    let pixels = vec![0x00FF0000u32; 4];
    let shot = capture(&pixels, 2, 2);
    assert_eq!(shot.width(), 2);
    assert_eq!(shot.height(), 2);
    for chunk in shot.data().chunks_exact(4) {
        assert_eq!(chunk, &[255, 0, 0, 255]);
    }
}

#[test]
fn xrgb_alpha_forced_to_255() {
    let pixels = vec![0xFF000000u32];
    let shot = capture(&pixels, 1, 1);
    assert_eq!(shot.data()[3], 255);
}

#[test]
fn lib_argb_preserves_alpha() {
    let pixels = vec![0x80FF0000u32];
    let shot = capture_argb(&pixels, 1, 1);
    assert_eq!(shot.data(), &[255, 0, 0, 128]);
}

#[test]
fn struct_capture_returns_domain_error() {
    let pixels = [0u32; 5];
    let mut cap = SoftbufferCapture::new(&pixels, 2, 2);
    let err = cap.capture().unwrap_err();
    assert!(matches!(
        err,
        SoftbufferCaptureError::DimensionMismatch {
            expected: 4,
            actual: 5
        }
    ));
}

// ── Further cases ───────────────────────────────────────────────────────────

#[test]
fn softbuffer_struct_capture_formats() {
    let pixels = [0x7F102030u32, 0x00405060u32];
    let mut cap = SoftbufferCapture::new(&pixels, 2, 1);
    assert_eq!(cap.capture().unwrap().data(), &[0x10, 0x20, 0x30, 255, 0x40, 0x50, 0x60, 255]);
    let mut cap = SoftbufferCapture::with_format(&pixels, 1, 2, SoftbufferPixelFormat::Argb);
    let shot = cap.capture().unwrap();
    assert_eq!(shot.width(), 1);
    assert_eq!(shot.data(), &[0x10, 0x20, 0x30, 0x7F, 0x40, 0x50, 0x60, 0]);
}

#[test]
fn softbuffer_error_conversions() {
    let err = SoftbufferCaptureError::DimensionMismatch { expected: 10, actual: 0 };
    assert_eq!(err.to_message(), "dimension mismatch: expected 10 pixels, got 0");
    let e = err.to_capture_error();
    assert_eq!(e.kind(), CaptureErrorKind::Unsupported);
    assert_eq!(e.to_message(), "Unsupported operation: dimension mismatch: expected 10 pixels, got 0");
}
