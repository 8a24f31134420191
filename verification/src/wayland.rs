//! The protocol logic of Wayland `wlr-screencopy-v1` capture: which globals
//! to bind, how screencopy frame events update the capture state, when each
//! wait phase ends, and conversion of the shared-memory buffer.
use vstd::prelude::*;
use crate::pixels::{convert_strided_rows, rows_fit, strided_rgba, RowLayout};
use crate::screenshot::Screenshot;
use crate::text::text_eq;

verus! {

/// A `wl_shm` pixel format as announced by the compositor.
#[derive(Debug, Clone, Copy, PartialEq, Eq, Structural)]
pub enum ShmFormat {
    /// 32-bit ARGB, little-endian `[B, G, R, A]` in memory.
    Argb8888,
    /// 32-bit XRGB, little-endian `[B, G, R, X]` in memory.
    Xrgb8888,
    /// Any other format, by its `wl_shm` code.
    Other(u32),
}

/// The globals that capture binds from the registry.
#[derive(Debug, Clone, Copy, PartialEq, Eq, Structural)]
pub enum WaylandGlobal {
    ScreencopyManager,
    Shm,
    Output,
}

/// The global to bind for an advertised interface, with the version to
/// bind: the advertised version capped at 3 for the screencopy manager, 1
/// for `wl_shm` and 4 for `wl_output`. Other interfaces are not bound.
pub open spec fn binding_for(interface: Seq<char>, version: u32) -> Option<(WaylandGlobal, u32)> {
    if interface == "zwlr_screencopy_manager_v1"@ {
        Some((WaylandGlobal::ScreencopyManager, if version < 3 { version } else { 3 }))
    } else if interface == "wl_shm"@ {
        Some((WaylandGlobal::Shm, if version < 1 { version } else { 1 }))
    } else if interface == "wl_output"@ {
        Some((WaylandGlobal::Output, if version < 4 { version } else { 4 }))
    } else {
        None
    }
}

/// A global is bound at a version the compositor offers, never above the
/// advertised one: the advertised version where it is at most the highest
/// version capture speaks (3 for the screencopy manager, 1 for `wl_shm`, 4
/// for `wl_output`), else that highest version. Each global comes from its
/// own interface only.
pub proof fn lemma_binding_within_advertised(interface: Seq<char>, version: u32)
    ensures
        binding_for(interface, version) matches Some((g, b)) ==> b <= version && (b == version
            || (g == WaylandGlobal::ScreencopyManager && b == 3) || (g == WaylandGlobal::Shm && b
            == 1) || (g == WaylandGlobal::Output && b == 4)) && (g == WaylandGlobal::ScreencopyManager
            ==> b <= 3) && (g == WaylandGlobal::Shm ==> b <= 1) && (g == WaylandGlobal::Output
            ==> b <= 4),
        binding_for(interface, version) matches Some((g, _)) ==> (g == WaylandGlobal::Output
            <==> interface == "wl_output"@) && (g == WaylandGlobal::Shm <==> interface
            == "wl_shm"@) && (g == WaylandGlobal::ScreencopyManager <==> interface
            == "zwlr_screencopy_manager_v1"@),
        binding_for(interface, version) is None <==> (interface != "wl_output"@ && interface
            != "wl_shm"@ && interface != "zwlr_screencopy_manager_v1"@),
{
    reveal_strlit("wl_output");
    reveal_strlit("wl_shm");
    reveal_strlit("zwlr_screencopy_manager_v1");
    assert("wl_output"@.len() == 9);
    assert("wl_shm"@.len() == 6);
    assert("zwlr_screencopy_manager_v1"@.len() == 26);
}

/// Which global to bind, and at which version, for an interface that the
/// registry advertises.
pub fn global_to_bind(interface: &str, version: u32) -> (r: Option<(WaylandGlobal, u32)>)
    ensures
        r == binding_for(interface@, version),
        r matches Some((_, b)) ==> b <= version,
        interface@ == "wl_output"@ ==> r == Some(
            (WaylandGlobal::Output, if version <= 4 { version } else { 4u32 }),
        ),
{
    proof {
        lemma_binding_within_advertised(interface@, version);
    }
    if text_eq(interface, "zwlr_screencopy_manager_v1") {
        Some((WaylandGlobal::ScreencopyManager, if version < 3 { version } else { 3 }))
    } else if text_eq(interface, "wl_shm") {
        Some((WaylandGlobal::Shm, if version < 1 { version } else { 1 }))
    } else if text_eq(interface, "wl_output") {
        Some((WaylandGlobal::Output, if version < 4 { version } else { 4 }))
    } else {
        None
    }
}

/// An event of a `zwlr_screencopy_frame_v1` object, as capture sees it.
#[derive(Debug, Clone, Copy, PartialEq, Eq, Structural)]
pub enum FrameEvent {
    /// A buffer type the compositor supports; `format` is `None` when the
    /// format code is not one that `wl_shm` defines.
    Buffer { format: Option<ShmFormat>, width: u32, height: u32, stride: u32 },
    /// All buffer types have been announced.
    BufferDone,
    /// The frame has been copied into the buffer.
    Ready,
    /// The copy failed.
    Failed,
    /// Any other event.
    Other,
}

/// The state of one frame capture.
#[derive(Debug, Clone, Copy, PartialEq, Eq, Structural)]
pub struct FrameState {
    /// The first buffer format with a known code, once announced.
    pub shm_format: Option<ShmFormat>,
    pub width: u32,
    pub height: u32,
    pub stride: u32,
    pub buffer_done: bool,
    pub ready: bool,
    pub failed: bool,
}

/// The state after `event`: the first buffer announcement with a known
/// format fixes format and geometry and later ones are ignored; the other
/// events set their flag.
pub open spec fn next_frame_state(s: FrameState, event: FrameEvent) -> FrameState {
    match event {
        FrameEvent::Buffer { format, width, height, stride } => if s.shm_format is None
            && format is Some {
            FrameState { shm_format: format, width, height, stride, ..s }
        } else {
            s
        },
        FrameEvent::BufferDone => FrameState { buffer_done: true, ..s },
        FrameEvent::Ready => FrameState { ready: true, ..s },
        FrameEvent::Failed => FrameState { failed: true, ..s },
        FrameEvent::Other => s,
    }
}

/// What to do after dispatching events while waiting for a frame.
#[derive(Debug, Clone, Copy, PartialEq, Eq, Structural)]
pub enum WaitOutcome {
    /// Keep dispatching.
    Continue,
    /// The awaited event arrived.
    Proceed,
    /// The compositor reported failure.
    Fail,
}

impl FrameState {
    /// A capture that has received no event.
    pub fn new() -> (s: FrameState)
        ensures
            s == (FrameState {
                shm_format: None,
                width: 0,
                height: 0,
                stride: 0,
                buffer_done: false,
                ready: false,
                failed: false,
            }),
    {
        FrameState {
            shm_format: None,
            width: 0,
            height: 0,
            stride: 0,
            buffer_done: false,
            ready: false,
            failed: false,
        }
    }

    /// Record one frame event.
    pub fn handle_event(&mut self, event: FrameEvent)
        ensures
            *final(self) == next_frame_state(*old(self), event),
    {
        match event {
            FrameEvent::Buffer { format, width, height, stride } => {
                if self.shm_format.is_none() && format.is_some() {
                    self.shm_format = format;
                    self.width = width;
                    self.height = height;
                    self.stride = stride;
                }
            },
            FrameEvent::BufferDone => {
                self.buffer_done = true;
            },
            FrameEvent::Ready => {
                self.ready = true;
            },
            FrameEvent::Failed => {
                self.failed = true;
            },
            FrameEvent::Other => {},
        }
    }

    /// While waiting for the buffer announcements: fail once failure was
    /// reported, proceed once they are done, else keep waiting.
    pub fn buffer_phase(&self) -> (w: WaitOutcome)
        ensures
            w == (if self.failed {
                WaitOutcome::Fail
            } else if self.buffer_done {
                WaitOutcome::Proceed
            } else {
                WaitOutcome::Continue
            }),
    {
        if self.failed {
            WaitOutcome::Fail
        } else if self.buffer_done {
            WaitOutcome::Proceed
        } else {
            WaitOutcome::Continue
        }
    }

    /// While waiting for the copy: fail once failure was reported, proceed
    /// once the frame is ready, else keep waiting.
    pub fn copy_phase(&self) -> (w: WaitOutcome)
        ensures
            w == (if self.failed {
                WaitOutcome::Fail
            } else if self.ready {
                WaitOutcome::Proceed
            } else {
                WaitOutcome::Continue
            }),
    {
        if self.failed {
            WaitOutcome::Fail
        } else if self.ready {
            WaitOutcome::Proceed
        } else {
            WaitOutcome::Continue
        }
    }
}

/// Once a buffer format is fixed, no event changes format or geometry.
pub proof fn lemma_buffer_fixed_once_known(s: FrameState, event: FrameEvent)
    requires
        s.shm_format is Some,
    ensures
        next_frame_state(s, event).shm_format == s.shm_format,
        next_frame_state(s, event).width == s.width,
        next_frame_state(s, event).height == s.height,
        next_frame_state(s, event).stride == s.stride,
{
}

/// No event clears a flag: done, ready and failed stay set once set.
pub proof fn lemma_flags_monotone(s: FrameState, event: FrameEvent)
    ensures
        s.buffer_done ==> next_frame_state(s, event).buffer_done,
        s.ready ==> next_frame_state(s, event).ready,
        s.failed ==> next_frame_state(s, event).failed,
{
}

/// The pixel layout of a shared-memory format that capture can convert.
pub open spec fn shm_layout(format: ShmFormat) -> Option<RowLayout> {
    match format {
        ShmFormat::Argb8888 => Some(RowLayout::Bgra4),
        ShmFormat::Xrgb8888 => Some(RowLayout::Bgrx4),
        ShmFormat::Other(_) => None,
    }
}

/// Convert the shared-memory buffer of a ready frame into an RGBA8
/// screenshot. Rows start every `stride` bytes. `None` when a row reaches
/// past the buffer, or when there is a row and the format is neither
/// ARGB8888 nor XRGB8888.
pub fn convert_to_rgba(raw: &[u8], width: u32, height: u32, stride: u32, format: ShmFormat) -> (r:
    Option<Screenshot>)
    ensures
        match shm_layout(format) {
            Some(layout) => match r {
                Some(s) => rows_fit(raw@.len(), width as nat, height as nat, stride as nat, 4)
                    && s.spec_width() == width && s.spec_height() == height && s.spec_data()
                    == strided_rgba(raw@, width as nat, height as nat, stride as nat, layout),
                None => !rows_fit(raw@.len(), width as nat, height as nat, stride as nat, 4),
            },
            None => match r {
                Some(s) => height == 0 && s.spec_width() == width && s.spec_height() == 0
                    && s.spec_data().len() == 0,
                None => height != 0,
            },
        },
{
    let layout = match format {
        ShmFormat::Argb8888 => RowLayout::Bgra4,
        ShmFormat::Xrgb8888 => RowLayout::Bgrx4,
        ShmFormat::Other(_) => {
            if height == 0 {
                return Some(Screenshot::from_rgba(width, 0, Vec::new()));
            }
            return None;
        },
    };
    match convert_strided_rows(raw, width, height, stride, layout) {
        Some(rgba) => Some(Screenshot::from_rgba(width, height, rgba)),
        None => None,
    }
}

/// Size in bytes of the shared-memory buffer for a frame: `stride * height`.
pub fn shm_buffer_size(stride: u32, height: u32) -> (n: u32)
    requires
        stride * height <= u32::MAX,
    ensures
        n == stride * height,
{
    stride * height
}

} // verus!
