//! The logic of automatic desktop capture: which back ends to try, in which
//! order, and how their failures are reported.
use vstd::prelude::*;

verus! {

/// A system capture back end.
#[derive(Debug, Clone, Copy, PartialEq, Eq, Structural)]
pub enum DesktopBackend {
    Wayland,
    X11,
    Portal,
}

/// The back ends to try, in order: Wayland when `$WAYLAND_DISPLAY` is set,
/// X11 when `$DISPLAY` is set, and the portal last in any case.
pub open spec fn backend_order(wayland_display: bool, display: bool) -> Seq<DesktopBackend> {
    (if wayland_display {
        seq![DesktopBackend::Wayland]
    } else {
        Seq::empty()
    }) + (if display {
        seq![DesktopBackend::X11]
    } else {
        Seq::empty()
    }) + seq![DesktopBackend::Portal]
}

/// The back ends to try, in order, given which display variables are set.
pub fn backends_to_try(wayland_display: bool, display: bool) -> (v: Vec<DesktopBackend>)
    ensures
        v@ == backend_order(wayland_display, display),
{
    let mut v: Vec<DesktopBackend> = Vec::new();
    if wayland_display {
        v.push(DesktopBackend::Wayland);
    }
    if display {
        v.push(DesktopBackend::X11);
    }
    v.push(DesktopBackend::Portal);
    assert(v@ =~= backend_order(wayland_display, display));
    v
}

/// The step of a back end that failed.
#[derive(Debug, Clone, Copy, PartialEq, Eq, Structural)]
pub enum FailureStage {
    /// Connecting to the back end.
    Connect,
    /// Capturing once connected.
    Capture,
}

/// The name of a back end, as failure notes give it.
pub open spec fn backend_name(backend: DesktopBackend) -> Seq<char> {
    match backend {
        DesktopBackend::Wayland => "Wayland"@,
        DesktopBackend::X11 => "X11"@,
        DesktopBackend::Portal => "Portal"@,
    }
}

/// The label of a back end's failure: its name, with ` (connect)` when
/// connecting failed.
pub open spec fn failure_label(backend: DesktopBackend, stage: FailureStage) -> Seq<char> {
    let name = backend_name(backend);
    match stage {
        FailureStage::Connect => name + " (connect)"@,
        FailureStage::Capture => name,
    }
}

/// The note recorded for one failed back end: `<label>: <error>`.
pub fn failure_note(backend: DesktopBackend, stage: FailureStage, error: &str) -> (s: String)
    ensures
        s@ == failure_label(backend, stage) + ": "@ + error@,
{
    let mut s = match backend {
        DesktopBackend::Wayland => String::from_str("Wayland"),
        DesktopBackend::X11 => String::from_str("X11"),
        DesktopBackend::Portal => String::from_str("Portal"),
    };
    match stage {
        FailureStage::Connect => s.append(" (connect)"),
        FailureStage::Capture => {},
    }
    s.append(": ");
    s.append(error);
    s
}

/// Errors that can occur during automatic desktop screenshot capture.
#[derive(Debug)]
pub enum DesktopCaptureError {
    /// All backends failed, with the note of each failure in order.
    AllBackendsFailed(Vec<String>),
}

/// Each note on a line of its own, introduced by `  - `.
pub open spec fn bullet_list(notes: Seq<Seq<char>>) -> Seq<char>
    decreases notes.len(),
{
    if notes.len() == 0 {
        Seq::empty()
    } else {
        bullet_list(notes.drop_last()) + "\n  - "@ + notes.last()
    }
}

/// The views of a list of strings.
pub open spec fn string_views(v: Seq<String>) -> Seq<Seq<char>> {
    v.map_values(|s: String| s@)
}

impl DesktopCaptureError {
    /// The human-readable description: a heading, then one line per
    /// failure.
    pub fn to_message(&self) -> (s: String)
        ensures
            match self {
                DesktopCaptureError::AllBackendsFailed(notes) => s@
                    == "all screenshot backends failed:"@ + bullet_list(string_views(notes@)),
            },
    {
        match self {
            DesktopCaptureError::AllBackendsFailed(notes) => {
                let mut s = String::from_str("all screenshot backends failed:");
                let ghost head = s@;
                let n = notes.len();
                let mut i: usize = 0;
                while i < n
                    invariant
                        n == notes@.len(),
                        i <= n,
                        s@ == head + bullet_list(string_views(notes@).take(i as int)),
                    decreases n - i,
                {
                    let ghost before = s@;
                    s.append("\n  - ");
                    s.append(notes[i].as_str());
                    proof {
                        let ghost views = string_views(notes@);
                        assert(views.take(i + 1).drop_last() =~= views.take(i as int));
                        assert(views.take(i + 1).last() == notes@[i as int]@);
                    }
                    i = i + 1;
                }
                assert(string_views(notes@).take(n as int) =~= string_views(notes@));
                s
            },
        }
    }
}

/// Where automatic capture stands: the back ends to try in order, how many
/// of them have failed so far, and the note of each failure in order.
#[derive(Debug)]
pub struct DesktopAttempts {
    order: Vec<DesktopBackend>,
    next: usize,
    notes: Vec<String>,
}

/// What automatic capture keeps at every step: one note per back end
/// tried so far, the `i`-th starting with the name of the `i`-th back end.
pub open spec fn one_note_per_tried_backend(a: DesktopAttempts) -> bool {
    &&& a.spec_next() <= a.spec_order().len()
    &&& a.spec_notes().len() == a.spec_next()
    &&& forall|i: int|
        0 <= i < a.spec_next() ==> (#[trigger] a.spec_notes()[i]).take(
            backend_name(a.spec_order()[i]).len() as int,
        ) == backend_name(a.spec_order()[i])
}

impl DesktopAttempts {
    /// The back ends to try, in order.
    pub closed spec fn spec_order(&self) -> Seq<DesktopBackend> {
        self.order@
    }

    /// How many back ends have been tried and failed.
    pub closed spec fn spec_next(&self) -> nat {
        self.next as nat
    }

    /// The failure notes recorded so far, in order.
    pub closed spec fn spec_notes(&self) -> Seq<Seq<char>> {
        string_views(self.notes@)
    }

    /// Nothing tried yet: the back ends of [`backend_order`] ahead, no
    /// failure recorded.
    pub fn new(wayland_display: bool, display: bool) -> (a: Self)
        ensures
            a.spec_order() == backend_order(wayland_display, display),
            a.spec_next() == 0,
            a.spec_notes() == Seq::<Seq<char>>::empty(),
            one_note_per_tried_backend(a),
    {
        let a = DesktopAttempts { order: backends_to_try(wayland_display, display), next: 0, notes: Vec::new() };
        assert(a.spec_notes() =~= Seq::<Seq<char>>::empty());
        a
    }

    /// The back end to try now, or `None` once every one has failed.
    pub fn current(&self) -> (b: Option<DesktopBackend>)
        ensures
            self.spec_next() < self.spec_order().len() ==> b == Some(
                self.spec_order()[self.spec_next() as int],
            ),
            self.spec_next() >= self.spec_order().len() ==> b is None,
    {
        if self.next < self.order.len() {
            Some(self.order[self.next])
        } else {
            None
        }
    }

    /// Record that the current back end failed at `stage` with the error
    /// text `error`, and move on to the next one.
    pub fn record_failure(&mut self, stage: FailureStage, error: &str)
        requires
            old(self).spec_next() < old(self).spec_order().len(),
        ensures
            final(self).spec_order() == old(self).spec_order(),
            final(self).spec_next() == old(self).spec_next() + 1,
            final(self).spec_notes() == old(self).spec_notes().push(
                failure_label(old(self).spec_order()[old(self).spec_next() as int], stage) + ": "@
                    + error@,
            ),
            one_note_per_tried_backend(*old(self)) ==> one_note_per_tried_backend(*final(self)),
    {
        let n: usize = self.order.len();
        let k: usize = self.next;
        let backend = self.order[k];
        assert(k < n);
        let note = failure_note(backend, stage, error);
        let ghost before = self.notes@;
        self.notes.push(note);
        self.next = k + 1;
        assert(string_views(self.notes@) =~= string_views(before).push(note@));
        proof {
            let name = backend_name(backend);
            let label = failure_label(backend, stage);
            assert(label.take(name.len() as int) =~= name);
            assert((label + ": "@ + error@).take(name.len() as int) =~= name);
        }
    }

    /// The error to report once every back end has failed: all the notes,
    /// in order.
    pub fn into_error(self) -> (e: DesktopCaptureError)
        ensures
            e matches DesktopCaptureError::AllBackendsFailed(notes) && string_views(notes@)
                == self.spec_notes(),
    {
        DesktopCaptureError::AllBackendsFailed(self.notes)
    }
}

} // verus!
