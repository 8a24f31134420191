//! The capture traits that back ends implement, and the canonical capture
//! error shared by all of them.
use vstd::prelude::*;
use crate::screenshot::Screenshot;

verus! {

/// A self-contained screenshot source (e.g. a system capture session).
///
/// Implemented by providers that already hold everything needed to produce a
/// screenshot on demand, so that back ends can be used interchangeably.
pub trait Capture: Sized {
    /// The error type returned when capture fails.
    type Error;

    /// Whether capturing from a source in state `before` may leave it in
    /// state `after` and give `r`. A source states this of itself; one that
    /// does not promises nothing.
    open spec fn capture_outcome(before: Self, after: Self, r: Result<Screenshot, Self::Error>) -> bool {
        true
    }

    /// Whether this source may be asked for a screenshot now. A source
    /// states this of itself; one that does not may always be asked.
    open spec fn can_capture(&self) -> bool {
        true
    }

    /// Capture a screenshot from this source.
    fn capture(&mut self) -> (r: Result<Screenshot, Self::Error>)
        requires
            old(self).can_capture(),
        ensures
            Self::capture_outcome(*old(self), *final(self), r),
    ;
}

/// Any closure (or other `FnMut`) that returns a screenshot result is a
/// [`Capture`] source: each capture is one call. Per-call state (a device,
/// a queue, a texture) lives in the closure, so no wrapper type is needed.
impl<F, E> Capture for F where F: FnMut() -> Result<Screenshot, E> {
    type Error = E;

    /// When the closure may be called with no arguments.
    open spec fn can_capture(&self) -> bool {
        call_requires(*self, ())
    }

    /// What one call of the closure may give.
    open spec fn capture_outcome(before: Self, after: Self, r: Result<Screenshot, E>) -> bool {
        call_ensures(before, (), r)
    }

    fn capture(&mut self) -> (r: Result<Screenshot, E>) {
        (self)()
    }
}

/// A [`Capture`] source that can capture multiple outputs (screens, monitors).
pub trait MultiCapture: Capture {
    /// Whether `n` may be the number of capture sources of a source in this
    /// state. A source states this of itself; one that does not promises
    /// nothing.
    open spec fn source_count_outcome(&self, n: usize) -> bool {
        true
    }

    /// Whether capturing output `index` from a source in state `before` may
    /// leave it in state `after` and give `r`. A source states this of
    /// itself; one that does not promises nothing.
    open spec fn capture_index_outcome(
        before: Self,
        after: Self,
        index: usize,
        r: Result<Screenshot, Self::Error>,
    ) -> bool {
        true
    }

    /// Number of available capture sources.
    fn source_count(&self) -> (n: usize)
        ensures
            self.source_count_outcome(n),
    ;

    /// Capture the output at zero-based `index`.
    fn capture_index(&mut self, index: usize) -> (r: Result<Screenshot, Self::Error>)
        ensures
            Self::capture_index_outcome(*old(self), *final(self), index, r),
    ;

    /// Capture all available outputs, in index order; stops at the first
    /// failure and returns it.
    fn capture_all(&mut self) -> (r: Result<Vec<Screenshot>, Self::Error>)
        ensures
            exists|n: usize|
                #[trigger] old(self).source_count_outcome(n) && captured_all(
                    |b: Self, a: Self, k: usize, x: Result<Screenshot, Self::Error>|
                        Self::capture_index_outcome(b, a, k, x),
                    n as nat,
                    *old(self),
                    *final(self),
                    r,
                ),
    {
        let ghost step = |b: Self, a: Self, k: usize, x: Result<Screenshot, Self::Error>|
            Self::capture_index_outcome(b, a, k, x);
        let ghost before = *self;
        let n = self.source_count();
        let mut shots: Vec<Screenshot> = Vec::new();
        let ghost mut states: Seq<Self> = seq![*self];
        let mut i: usize = 0;
        while i < n
            invariant
                step == (|b: Self, a: Self, k: usize, x: Result<Screenshot, Self::Error>|
                    Self::capture_index_outcome(b, a, k, x)),
                before == *old(self),
                before.source_count_outcome(n),
                i <= n,
                shots@.len() == i,
                index_steps(step, states, shots@),
                states[0] == before,
                states.last() == *self,
            decreases n - i,
        {
            let ghost prev = *self;
            let ghost old_states = states;
            let ghost old_shots = shots@;
            match self.capture_index(i) {
                Ok(shot) => {
                    shots.push(shot);
                    proof {
                        states = old_states.push(*self);
                        assert forall|j: int| 0 <= j < shots@.len() implies step(
                            states[j],
                            states[j + 1],
                            j as usize,
                            Ok(#[trigger] shots@[j]),
                        ) by {
                            if j < old_shots.len() {
                                assert(shots@[j] == old_shots[j]);
                                assert(states[j] == old_states[j]);
                                assert(states[j + 1] == old_states[j + 1]);
                            } else {
                                assert(j == i);
                                assert(states[j] == prev);
                            }
                        }
                    }
                },
                Err(e) => {
                    assert(step(states.last(), *self, shots@.len() as usize, Err(e)));
                    let ghost sh = shots@;
                    assert(states[0] == before && sh.len() < n as nat && failed_after(
                        step,
                        states,
                        sh,
                        *self,
                        e,
                    ));
                    let ghost r = Err::<Vec<Screenshot>, Self::Error>(e);
                    assert(r matches Err(x) && x == e);
                    assert(captured_all(step, n as nat, before, *self, r));
                    return Err(e);
                },
            }
            i = i + 1;
        }
        assert(all_done(step, states, shots@, *self));
        Ok(shots)
    }
}

/// Captures of outputs `0`, `1`, … in order, each one a `step`: `states`
/// are the states of the source before and after each capture, `shots`
/// what each gave.
pub open spec fn index_steps<S, E>(
    step: spec_fn(S, S, usize, Result<Screenshot, E>) -> bool,
    states: Seq<S>,
    shots: Seq<Screenshot>,
) -> bool {
    &&& states.len() == shots.len() + 1
    &&& forall|j: int|
        0 <= j < shots.len() ==> step(states[j], states[j + 1], j as usize, Ok(#[trigger] shots[j]))
}

/// Every capture in `shots` succeeded in order, ending in state `after`.
pub open spec fn all_done<S, E>(
    step: spec_fn(S, S, usize, Result<Screenshot, E>) -> bool,
    states: Seq<S>,
    shots: Seq<Screenshot>,
    after: S,
) -> bool {
    index_steps(step, states, shots) && states.last() == after
}

/// The captures in `shots` succeeded in order, and capturing output
/// `shots.len()` then failed with `e`, ending in state `after`.
pub open spec fn failed_after<S, E>(
    step: spec_fn(S, S, usize, Result<Screenshot, E>) -> bool,
    states: Seq<S>,
    shots: Seq<Screenshot>,
    after: S,
    e: E,
) -> bool {
    index_steps(step, states, shots) && step(states.last(), after, shots.len() as usize, Err(e))
}

/// What capturing all `count` outputs of a source in state `before` may
/// give, when `step` says what capturing one output may give: every
/// output's screenshot in index order when each capture succeeds, else the
/// error of the first capture that fails, the later outputs not captured.
pub open spec fn captured_all<S, E>(
    step: spec_fn(S, S, usize, Result<Screenshot, E>) -> bool,
    count: nat,
    before: S,
    after: S,
    r: Result<Vec<Screenshot>, E>,
) -> bool {
    match r {
        Ok(v) => v@.len() == count && exists|states: Seq<S>|
            #![trigger all_done(step, states, v@, after)]
            states[0] == before && all_done(step, states, v@, after),
        Err(e) => exists|states: Seq<S>, shots: Seq<Screenshot>|
            #![trigger failed_after(step, states, shots, after, e)]
            states[0] == before && shots.len() < count && failed_after(step, states, shots, after, e),
    }
}

/// High-level categories of capture failure.
#[non_exhaustive]
#[derive(Debug, Clone, Copy, PartialEq, Eq, Structural)]
pub enum CaptureErrorKind {
    /// The backend could not connect or initialise.
    Connect,
    /// The requested output / index / format is not supported by this backend.
    Unsupported,
    /// The user cancelled an interactive capture (e.g. portal dialog).
    Cancelled,
    /// The capture was attempted but the backend reported failure mid-flight.
    Backend,
    /// An I/O error occurred.
    Io,
    /// Pixel data could not be decoded or converted.
    Decode,
    /// Catch-all for anything else.
    Other,
}

/// The short description of each kind of capture failure.
pub open spec fn kind_text(kind: CaptureErrorKind) -> Seq<char> {
    match kind {
        CaptureErrorKind::Connect => "Connection error"@,
        CaptureErrorKind::Unsupported => "Unsupported operation"@,
        CaptureErrorKind::Cancelled => "Cancelled by user"@,
        CaptureErrorKind::Backend => "Backend failure"@,
        CaptureErrorKind::Io => "I/O error"@,
        CaptureErrorKind::Decode => "Decode error"@,
        CaptureErrorKind::Other => "Other error"@,
    }
}

impl CaptureErrorKind {
    /// The short description of this kind of failure.
    pub fn as_str(&self) -> (s: &'static str)
        ensures
            s@ == kind_text(*self),
    {
        match self {
            CaptureErrorKind::Connect => "Connection error",
            CaptureErrorKind::Unsupported => "Unsupported operation",
            CaptureErrorKind::Cancelled => "Cancelled by user",
            CaptureErrorKind::Backend => "Backend failure",
            CaptureErrorKind::Io => "I/O error",
            CaptureErrorKind::Decode => "Decode error",
            CaptureErrorKind::Other => "Other error",
        }
    }
}

/// A canonical error type shared by all `Capture` implementations.
///
/// Back ends map their domain-specific errors into this type, so that
/// sources with `Error = CaptureError` can be used interchangeably. The
/// chained source error, when there is one, is kept by its description.
#[derive(Debug)]
pub struct CaptureError {
    kind: CaptureErrorKind,
    message: String,
    source: Option<String>,
}

impl CaptureError {
    /// The category of this error.
    pub closed spec fn spec_kind(&self) -> CaptureErrorKind {
        self.kind
    }

    /// The message of this error.
    pub closed spec fn spec_message(&self) -> Seq<char> {
        self.message@
    }

    /// The description of the chained source error, if any.
    pub closed spec fn spec_source(&self) -> Option<Seq<char>> {
        match self.source {
            Some(s) => Some(s@),
            None => None,
        }
    }

    /// Create a new capture error with the given kind and message.
    pub fn new(kind: CaptureErrorKind, msg: &str) -> (e: CaptureError)
        ensures
            e.spec_kind() == kind,
            e.spec_message() == msg@,
            e.spec_source() is None,
    {
        CaptureError { kind, message: String::from_str(msg), source: None }
    }

    /// Attach a chained source error, given by its description.
    pub fn with_source(self, source: String) -> (e: CaptureError)
        ensures
            e.spec_kind() == self.spec_kind(),
            e.spec_message() == self.spec_message(),
            e.spec_source() == Some(source@),
    {
        CaptureError { kind: self.kind, message: self.message, source: Some(source) }
    }

    /// The high-level category of this error.
    pub fn kind(&self) -> (k: CaptureErrorKind)
        ensures
            k == self.spec_kind(),
    {
        self.kind
    }

    /// The description of the chained source error, if any.
    pub fn source_text(&self) -> (s: Option<&str>)
        ensures
            match s {
                Some(t) => self.spec_source() == Some(t@),
                None => self.spec_source() is None,
            },
    {
        match &self.source {
            Some(t) => Some(t.as_str()),
            None => None,
        }
    }

    /// The human-readable description: `<kind text>: <message>`.
    pub fn to_message(&self) -> (s: String)
        ensures
            s@ == kind_text(self.spec_kind()) + ": "@ + self.spec_message(),
    {
        let mut s = String::from_str(self.kind.as_str());
        s.append(": ");
        s.append(self.message.as_str());
        proof {
            reveal_strlit(": ");
        }
        s
    }
}

} // verus!
