use miniscreenshot::capture::Capture;
use miniscreenshot::screenshot::Screenshot;
use miniscreenshot::winit::WindowCapture;

/// Trivial provider that always returns a 1×1 red pixel.
struct RedProvider;

impl Capture for RedProvider {
    type Error = ();

    fn capture(&mut self) -> Result<Screenshot, ()> {
        Ok(Screenshot::from_rgba(1, 1, vec![255, 0, 0, 255]))
    }
}

#[test]
fn window_capture_delegates_to_provider() {
    let mut cap = WindowCapture::new(RedProvider);
    let shot = cap.capture().unwrap();
    assert_eq!(shot.width(), 1);
    assert_eq!(shot.data(), &[255, 0, 0, 255]);
}

#[test]
fn screenshot_provider_impl_for_window_capture() {
    let mut cap = WindowCapture::new(RedProvider);
    let shot = Capture::capture(&mut cap).unwrap();
    assert_eq!(shot.height(), 1);
}

/// Provider that counts its captures.
struct Counter(u8);

impl Capture for Counter {
    type Error = String;

    fn capture(&mut self) -> Result<Screenshot, String> {
        self.0 += 1;
        if self.0 > 2 {
            return Err("exhausted".to_string());
        }
        Ok(Screenshot::from_rgba(1, 1, vec![self.0, 0, 0, 255]))
    }
}

#[test]
fn window_capture_gives_access_to_provider() {
    let mut cap = WindowCapture::new(Counter(0));
    assert_eq!(cap.capture().unwrap().data()[0], 1);
    assert_eq!(cap.provider().0, 1);
    cap.provider_mut().0 = 5;
    assert_eq!(cap.capture().unwrap_err(), "exhausted");
    assert_eq!(cap.into_provider().0, 6);
}
