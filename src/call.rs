//! The decisions of one detection call, as a state machine.
//!
//! The caller performs each `Action` the machine asks for (lay out and
//! allocate the scratch buffer, run the native routine, free the buffer) and
//! reports how it went as an `Event`. The machine decodes the native result
//! while the buffer is still held, asks for the buffer to be freed on every
//! path that acquired it, and holds the call's outcome until it is taken.
use vstd::prelude::*;
use crate::decode::{DetectionResult, decode, decoded, records_fit, views};
use crate::error::LibfacedetectionError;
use crate::face::{FaceView, RECORD_SLOTS};

verus! {

/// Where a detection call stands.
#[derive(Debug, Clone, Copy, PartialEq, Eq, Structural)]
pub enum Phase {
    /// Nothing done yet.
    Idle,
    /// The scratch buffer was asked for.
    Acquiring,
    /// The scratch buffer is held and the native routine was asked to run.
    Invoking,
    /// The outcome is known and the buffer was asked to be freed.
    Releasing,
    /// The buffer is no longer held; the outcome can be taken.
    Finished,
}

/// What the caller is to do next.
#[derive(Debug, Clone, Copy, PartialEq, Eq, Structural)]
pub enum Action {
    /// Lay out and allocate the scratch buffer.
    Acquire,
    /// Run the native routine once on the scratch buffer.
    Invoke,
    /// Free the scratch buffer.
    Release,
    /// The call is over: take its outcome.
    Return,
}

/// What happened when the caller performed the last action.
#[derive(Debug)]
pub enum Event {
    /// The call starts.
    Begin,
    /// The scratch buffer was allocated.
    Acquired,
    /// The scratch buffer could not be laid out.
    AcquireFailed(core::alloc::LayoutError),
    /// The allocator could not supply the scratch buffer.
    AllocatorRefused,
    /// The native routine handed back no result.
    NativeFailed,
    /// The native routine handed back a result: its face count, and the
    /// record area that follows the count, copied out of the scratch buffer.
    NativeDone { face_count: i32, records: Vec<u16> },
    /// The scratch buffer was freed.
    Released,
}

/// The state of a call: its phase, and its outcome once known.
pub struct CallState {
    pub phase: Phase,
    pub outcome: Option<Result<Seq<FaceView>, LibfacedetectionError>>,
}

/// The state a call starts in.
pub open spec fn initial() -> CallState {
    CallState { phase: Phase::Idle, outcome: None }
}

/// An outcome is known exactly once the native routine has been heard from
/// or the buffer could not be had.
pub open spec fn well_formed(s: CallState) -> bool {
    (s.phase is Releasing || s.phase is Finished) <==> s.outcome is Some
}

/// The events that a call in phase `p` takes.
pub open spec fn accepts(p: Phase, e: Event) -> bool {
    match e {
        Event::Begin => p is Idle,
        Event::Acquired => p is Acquiring,
        Event::AcquireFailed(_) => p is Acquiring,
        Event::AllocatorRefused => p is Acquiring,
        Event::NativeFailed => p is Invoking,
        Event::NativeDone { face_count, records } => p is Invoking && records_fit(
            face_count,
            records@.len() as int,
        ),
        Event::Released => p is Releasing,
    }
}

/// The state a call moves to on an event it takes, and what it asks for next.
pub open spec fn next(s: CallState, e: Event) -> (CallState, Action) {
    match e {
        Event::Begin => (CallState { phase: Phase::Acquiring, ..s }, Action::Acquire),
        Event::Acquired => (CallState { phase: Phase::Invoking, ..s }, Action::Invoke),
        Event::AcquireFailed(err) => (
            CallState {
                phase: Phase::Finished,
                outcome: Some(Err(LibfacedetectionError::AllocError(err))),
            },
            Action::Return,
        ),
        Event::AllocatorRefused => (
            CallState {
                phase: Phase::Finished,
                outcome: Some(Err(LibfacedetectionError::AllocatorRefused)),
            },
            Action::Return,
        ),
        Event::NativeFailed => (
            CallState {
                phase: Phase::Releasing,
                outcome: Some(Err(LibfacedetectionError::FaceDetectionError)),
            },
            Action::Release,
        ),
        Event::NativeDone { face_count, records } => (
            CallState {
                phase: Phase::Releasing,
                outcome: Some(Ok(decoded(face_count, records@))),
            },
            Action::Release,
        ),
        Event::Released => (CallState { phase: Phase::Finished, ..s }, Action::Return),
    }
}

/// The faces of a detection result, or its error.
pub open spec fn outcome_view(r: Result<DetectionResult, LibfacedetectionError>) -> Result<
    Seq<FaceView>,
    LibfacedetectionError,
> {
    match r {
        Ok(d) => Ok(views(d.faces@)),
        Err(e) => Err(e),
    }
}

/// One detection call in progress.
pub struct DetectionCall {
    phase: Phase,
    outcome: Option<Result<DetectionResult, LibfacedetectionError>>,
}

impl View for DetectionCall {
    type V = CallState;

    closed spec fn view(&self) -> CallState {
        CallState {
            phase: self.phase,
            outcome: match self.outcome {
                Some(r) => Some(outcome_view(r)),
                None => None,
            },
        }
    }
}

impl DetectionCall {
    /// A call that has not started.
    pub fn new() -> (c: DetectionCall)
        ensures
            c@ == initial(),
    {
        DetectionCall { phase: Phase::Idle, outcome: None }
    }

    /// The phase the call is in.
    pub fn phase(&self) -> (p: Phase)
        ensures
            p == self@.phase,
    {
        self.phase
    }

    /// Whether the call takes `event` in its current phase.
    pub fn accepts(&self, event: &Event) -> (r: bool)
        ensures
            r == accepts(self@.phase, *event),
    {
        match event {
            Event::Begin => self.phase == Phase::Idle,
            Event::Acquired => self.phase == Phase::Acquiring,
            Event::AcquireFailed(_) => self.phase == Phase::Acquiring,
            Event::AllocatorRefused => self.phase == Phase::Acquiring,
            Event::NativeFailed => self.phase == Phase::Invoking,
            Event::NativeDone { face_count, records } => {
                if *face_count <= 0 {
                    self.phase == Phase::Invoking
                } else {
                    let n: u64 = *face_count as u64;
                    assert(n * 142 <= 142 * 0x7fff_ffff) by (nonlinear_arith)
                        requires
                            n <= 0x7fff_ffff,
                    ;
                    self.phase == Phase::Invoking && n * (RECORD_SLOTS as u64)
                        <= records.len() as u64
                }
            },
            Event::Released => self.phase == Phase::Releasing,
        }
    }

    /// Takes an event the call accepts, and returns what the caller is to do next.
    pub fn step(&mut self, event: Event) -> (action: Action)
        requires
            well_formed(old(self)@),
            accepts(old(self)@.phase, event),
        ensures
            well_formed(final(self)@),
            (final(self)@, action) == next(old(self)@, event),
    {
        match event {
            Event::Begin => {
                self.phase = Phase::Acquiring;
                Action::Acquire
            },
            Event::Acquired => {
                self.phase = Phase::Invoking;
                Action::Invoke
            },
            Event::AcquireFailed(err) => {
                self.phase = Phase::Finished;
                self.outcome = Some(Err(LibfacedetectionError::AllocError(err)));
                Action::Return
            },
            Event::AllocatorRefused => {
                self.phase = Phase::Finished;
                self.outcome = Some(Err(LibfacedetectionError::AllocatorRefused));
                Action::Return
            },
            Event::NativeFailed => {
                self.phase = Phase::Releasing;
                self.outcome = Some(Err(LibfacedetectionError::FaceDetectionError));
                Action::Release
            },
            Event::NativeDone { face_count, records } => {
                let faces = decode(face_count, records.as_slice());
                self.phase = Phase::Releasing;
                self.outcome = Some(Ok(DetectionResult { faces }));
                Action::Release
            },
            Event::Released => {
                self.phase = Phase::Finished;
                Action::Return
            },
        }
    }

    /// The outcome of a finished call.
    pub fn finish(self) -> (r: Result<DetectionResult, LibfacedetectionError>)
        requires
            well_formed(self@),
            self@.phase is Finished,
        ensures
            self@.outcome == Some(outcome_view(r)),
    {
        match self.outcome {
            Some(r) => r,
            None => {
                assert(false);
                Err(LibfacedetectionError::FaceDetectionError)
            },
        }
    }
}

} // verus!
