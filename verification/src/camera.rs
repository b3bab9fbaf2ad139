//! One camera: its latest frame and the decisions of its capture loop.
//!
//! The capture loop itself blocks on the device and sleeps, so it runs
//! outside this module. It reports each thing that happened as a
//! [`LoopEvent`] and is told what to do next by a [`LoopAction`].

use vstd::prelude::*;
use crate::address::{CameraSpec, CameraSpecView};
use crate::frame::{slot_view, Frame, FrameCache, FrameView};

verus! {

/// Milliseconds that the capture loop waits after a failed capture.
pub const BACKOFF_MS: u64 = 100;

/// Where a camera's capture loop stands.
#[derive(Clone, Copy, Debug, PartialEq, Eq, Structural)]
pub enum Phase {
    /// No loop is alive.
    Stopped,
    /// A loop was asked for and has not reported yet.
    Starting,
    /// The loop is capturing.
    Running,
    /// The last capture failed; the loop waits before the next attempt.
    Retrying,
    /// A stop was requested; the loop has not seen it yet.
    Stopping,
}

/// What the capture loop is told to do next.
#[derive(Clone, Copy, Debug, PartialEq, Eq, Structural)]
pub enum LoopAction {
    /// Attempt to capture the next frame.
    Capture,
    /// Wait this many milliseconds.
    Backoff(u64),
    /// Leave the loop.
    Exit,
}

/// What the capture loop reports.
#[derive(Debug)]
pub enum LoopEvent {
    /// The loop has just begun.
    Begin,
    /// A capture attempt ended, with the frame or without one.
    Grabbed(Option<Frame>),
    /// The wait after a failed capture is over.
    BackoffElapsed,
}

/// The mathematical value of a [`LoopEvent`]. A capture that gave no frame
/// and one that gave a frame without pixels are the same failure.
pub enum EventView {
    Begin,
    Captured(FrameView),
    CaptureFailed,
    BackoffElapsed,
}

impl EventView {
    /// A captured frame has pixels.
    pub open spec fn valid(self) -> bool {
        match self {
            EventView::Captured(frame) => !frame.is_blank(),
            _ => true,
        }
    }
}

/// How the outcome of one capture attempt counts.
pub open spec fn grab_view(grabbed: Option<Frame>) -> EventView {
    match grabbed {
        Some(frame) => if frame@.is_blank() {
            EventView::CaptureFailed
        } else {
            EventView::Captured(frame@)
        },
        None => EventView::CaptureFailed,
    }
}

impl View for LoopEvent {
    type V = EventView;

    open spec fn view(&self) -> EventView {
        match self {
            LoopEvent::Begin => EventView::Begin,
            LoopEvent::Grabbed(grabbed) => grab_view(*grabbed),
            LoopEvent::BackoffElapsed => EventView::BackoffElapsed,
        }
    }
}

/// A camera could not be opened.
#[derive(Debug)]
pub struct OpenError {
    /// The camera that did not open.
    pub spec: CameraSpec,
}

/// The mathematical value of a [`Camera`].
pub struct CameraView {
    pub spec: CameraSpecView,
    pub slot: Option<FrameView>,
    pub running: bool,
    pub phase: Phase,
}

impl CameraView {
    /// The state of a camera that was just opened: no frame, no loop.
    pub open spec fn opened(spec: CameraSpecView) -> CameraView {
        CameraView { spec, slot: None, running: false, phase: Phase::Stopped }
    }

    /// The running flag is set exactly while a loop is alive and no stop was
    /// requested, and a cached frame has pixels.
    pub open spec fn wf(self) -> bool {
        &&& self.running == (self.phase is Starting || self.phase is Running
            || self.phase is Retrying)
        &&& self.slot is Some ==> !self.slot->0.is_blank()
    }

    /// The state after a start request. Only a stopped camera starts; on any
    /// other the request changes nothing.
    pub open spec fn started(self) -> CameraView {
        if self.phase is Stopped {
            CameraView { running: true, phase: Phase::Starting, ..self }
        } else {
            self
        }
    }

    /// Whether a start request asks for a new loop.
    pub open spec fn needs_worker(self) -> bool {
        self.phase is Stopped
    }

    /// The state after a stop request: the flag is cleared, and a live loop is
    /// left to see that at its next event.
    pub open spec fn stopped(self) -> CameraView {
        CameraView {
            running: false,
            phase: if self.phase is Stopped {
                Phase::Stopped
            } else {
                Phase::Stopping
            },
            ..self
        }
    }

    /// The state after the loop reports `event`. A stopped camera ignores
    /// every event. Otherwise a captured frame replaces the cached one and
    /// nothing else touches it; then the loop ends if the flag is cleared,
    /// waits if the capture failed, and captures again in every other case.
    pub open spec fn step(self, event: EventView) -> CameraView {
        if self.phase is Stopped {
            self
        } else {
            let slot = match event {
                EventView::Captured(frame) => Some(frame),
                _ => self.slot,
            };
            let phase = if !self.running {
                Phase::Stopped
            } else if event is CaptureFailed {
                Phase::Retrying
            } else {
                Phase::Running
            };
            CameraView { slot, phase, ..self }
        }
    }

    /// What the loop is told after it reports `event`.
    pub open spec fn action(self, event: EventView) -> LoopAction {
        if self.phase is Stopped || !self.running {
            LoopAction::Exit
        } else if event is CaptureFailed {
            LoopAction::Backoff(BACKOFF_MS)
        } else {
            LoopAction::Capture
        }
    }

    /// The state after the loop reports `events` one after another.
    pub open spec fn run(self, events: Seq<EventView>) -> CameraView
        decreases events.len(),
    {
        if events.len() == 0 {
            self
        } else {
            self.run(events.drop_last()).step(events.last())
        }
    }
}

/// One camera: what it is, the latest frame captured from it, and the state
/// of its capture loop.
#[derive(Debug)]
pub struct Camera {
    spec: CameraSpec,
    cache: FrameCache,
    control: Control,
}

/// The flag and the phase of a capture loop, which change together.
#[derive(Clone, Copy, Debug)]
struct Control {
    running: bool,
    phase: Phase,
}

impl View for Camera {
    type V = CameraView;

    closed spec fn view(&self) -> CameraView {
        CameraView {
            spec: self.spec@,
            slot: self.cache@,
            running: self.control.running,
            phase: self.control.phase,
        }
    }
}

impl Camera {
    /// A camera is well formed at all times.
    #[verifier::type_invariant]
    closed spec fn inv(&self) -> bool {
        self@.wf()
    }

    /// Makes the camera for `spec` from the outcome of opening its device or
    /// stream. A camera that did not open is an error, and is not retried.
    pub fn new(spec: CameraSpec, opened: bool) -> (res: Result<Camera, OpenError>)
        ensures
            opened ==> res is Ok && res->Ok_0@ == CameraView::opened(spec@),
            !opened ==> res is Err && res->Err_0.spec@ == spec@,
    {
        if opened {
            Ok(
                Camera {
                    spec,
                    cache: FrameCache::new(),
                    control: Control { running: false, phase: Phase::Stopped },
                },
            )
        } else {
            Err(OpenError { spec })
        }
    }

    /// Requests the capture loop. Returns whether a loop has to be launched:
    /// true for a stopped camera, false for any other, which is left as it
    /// is.
    pub fn start(&mut self) -> (launch: bool)
        ensures
            final(self)@ == old(self)@.started(),
            launch == old(self)@.needs_worker(),
            final(self)@.wf(),
    {
        proof {
            use_type_invariant(&*self);
        }
        match self.control.phase {
            Phase::Stopped => {
                self.control = Control { running: true, phase: Phase::Starting };
                true
            },
            _ => false,
        }
    }

    /// A copy of the latest frame, if any was captured. Never waits for the
    /// capture loop.
    pub fn get_frame(&self) -> (res: Option<Frame>)
        ensures
            slot_view(res) == self@.slot,
            res is Some ==> !res->0@.is_blank(),
    {
        proof {
            use_type_invariant(self);
        }
        self.cache.read()
    }

    /// Requests the capture loop to end. The loop learns of it at its next
    /// event; until then the camera is stopping, not stopped.
    pub fn release(&mut self)
        ensures
            final(self)@ == old(self)@.stopped(),
            final(self)@.wf(),
    {
        proof {
            use_type_invariant(&*self);
        }
        match self.control.phase {
            Phase::Stopped => {
                self.control = Control { running: false, phase: Phase::Stopped };
            },
            _ => {
                self.control = Control { running: false, phase: Phase::Stopping };
            },
        }
    }

    /// Takes the outcome of one capture attempt. A frame with pixels replaces
    /// the cached frame; no frame, or one without pixels, leaves the cache as
    /// it is. Returns what the loop does next.
    pub fn capture_frame(&mut self, grabbed: Option<Frame>) -> (action: LoopAction)
        ensures
            final(self)@ == old(self)@.step(grab_view(grabbed)),
            action == old(self)@.action(grab_view(grabbed)),
            final(self)@.wf(),
    {
        proof {
            use_type_invariant(&*self);
        }
        match self.control.phase {
            Phase::Stopped => {
                return LoopAction::Exit;
            },
            _ => {},
        }
        let mut captured = false;
        match grabbed {
            Some(frame) => {
                if !frame.empty() {
                    self.cache.write(frame);
                    captured = true;
                }
            },
            None => {},
        }
        if !self.control.running {
            self.control = Control { running: false, phase: Phase::Stopped };
            LoopAction::Exit
        } else if captured {
            self.control = Control { running: true, phase: Phase::Running };
            LoopAction::Capture
        } else {
            self.control = Control { running: true, phase: Phase::Retrying };
            LoopAction::Backoff(BACKOFF_MS)
        }
    }

    /// Takes one event of the capture loop and returns what the loop does
    /// next.
    pub fn step(&mut self, event: LoopEvent) -> (action: LoopAction)
        ensures
            final(self)@ == old(self)@.step(event@),
            action == old(self)@.action(event@),
            final(self)@.wf(),
    {
        match event {
            LoopEvent::Grabbed(grabbed) => self.capture_frame(grabbed),
            _ => {
                proof {
                    use_type_invariant(&*self);
                }
                match self.control.phase {
                    Phase::Stopped => LoopAction::Exit,
                    _ => {
                        if self.control.running {
                            self.control = Control { running: true, phase: Phase::Running };
                            LoopAction::Capture
                        } else {
                            self.control = Control { running: false, phase: Phase::Stopped };
                            LoopAction::Exit
                        }
                    },
                }
            },
        }
    }

    /// The camera's name and address.
    pub fn spec(&self) -> (res: &CameraSpec)
        ensures
            res@ == self@.spec,
    {
        &self.spec
    }

    /// Where the capture loop stands.
    pub fn phase(&self) -> (res: Phase)
        ensures
            res == self@.phase,
    {
        self.control.phase
    }

    /// Whether the capture loop is asked to go on.
    pub fn is_running(&self) -> (res: bool)
        ensures
            res == self@.running,
            res == (self@.phase is Starting || self@.phase is Running || self@.phase is Retrying),
    {
        proof {
            use_type_invariant(self);
        }
        self.control.running
    }
}

} // verus!
