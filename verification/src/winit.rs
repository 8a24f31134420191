//! A thin, window-agnostic wrapper around any [`Capture`] provider, for
//! applications that own a `winit` window and a rendering-backend provider.
use vstd::prelude::*;
use crate::capture::Capture;
use crate::screenshot::Screenshot;

verus! {

/// Thin wrapper around any [`Capture`] provider; it forwards every capture
/// to the provider, which knows which window it reads pixels from.
pub struct WindowCapture<P> {
    provider: P,
}

impl<P: Capture> WindowCapture<P> {
    /// The wrapped provider.
    pub closed spec fn spec_provider(&self) -> P {
        self.provider
    }

    /// Wrap `provider` in a [`WindowCapture`].
    pub fn new(provider: P) -> (w: Self)
        ensures
            w.spec_provider() == provider,
    {
        WindowCapture { provider }
    }

    /// Capture a screenshot using the underlying provider: the result and
    /// the provider's new state are those of one capture by the provider.
    pub fn capture(&mut self) -> (r: Result<Screenshot, P::Error>)
        requires
            old(self).spec_provider().can_capture(),
        ensures
            P::capture_outcome(old(self).spec_provider(), final(self).spec_provider(), r),
    {
        self.provider.capture()
    }

    /// Return a reference to the underlying provider.
    pub fn provider(&self) -> (p: &P)
        ensures
            *p == self.spec_provider(),
    {
        &self.provider
    }

    /// Return a mutable reference to the underlying provider.
    pub fn provider_mut(&mut self) -> (p: &mut P)
        ensures
            *p == old(self).spec_provider(),
            final(self).spec_provider() == *final(p),
    {
        &mut self.provider
    }

    /// Consume the wrapper and return the underlying provider.
    pub fn into_provider(self) -> (p: P)
        ensures
            p == self.spec_provider(),
    {
        self.provider
    }
}

impl<P: Capture> Capture for WindowCapture<P> {
    type Error = P::Error;

    /// Whenever the wrapped provider may be asked.
    open spec fn can_capture(&self) -> bool {
        self.spec_provider().can_capture()
    }

    /// One capture by the wrapped provider.
    open spec fn capture_outcome(before: Self, after: Self, r: Result<Screenshot, P::Error>) -> bool {
        P::capture_outcome(before.spec_provider(), after.spec_provider(), r)
    }

    fn capture(&mut self) -> (r: Result<Screenshot, P::Error>) {
        self.provider.capture()
    }
}

} // verus!
