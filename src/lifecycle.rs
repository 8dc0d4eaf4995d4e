//! What holds of every run of a detection call, and of every decoded result.
use vstd::prelude::*;
use crate::call::{Action, CallState, Event, Phase, accepts, initial, next};
use crate::decode::{decoded, face_total};
use crate::error::LibfacedetectionError;
use crate::face::{RECORD_SLOTS, record_at};

verus! {

/// The state a call reaches over `events`, and the actions it asks for on the way.
pub open spec fn run(s: CallState, events: Seq<Event>) -> (CallState, Seq<Action>)
    decreases events.len(),
{
    if events.len() == 0 {
        (s, Seq::empty())
    } else {
        let step = next(s, events[0]);
        let rest = run(step.0, events.subrange(1, events.len() as int));
        (rest.0, seq![step.1] + rest.1)
    }
}

/// The call takes every one of `events`, in order, starting from `s`.
pub open spec fn runs(s: CallState, events: Seq<Event>) -> bool
    decreases events.len(),
{
    events.len() == 0 || (accepts(s.phase, events[0]) && runs(
        next(s, events[0]).0,
        events.subrange(1, events.len() as int),
    ))
}

/// How many times `a` occurs in `actions`.
pub open spec fn count_action(actions: Seq<Action>, a: Action) -> nat
    decreases actions.len(),
{
    if actions.len() == 0 {
        0
    } else {
        (if actions[0] == a {
            1nat
        } else {
            0nat
        }) + count_action(actions.subrange(1, actions.len() as int), a)
    }
}

/// How many of `events` satisfy `f`.
pub open spec fn count_events(events: Seq<Event>, f: spec_fn(Event) -> bool) -> nat
    decreases events.len(),
{
    if events.len() == 0 {
        0
    } else {
        (if f(events[0]) {
            1nat
        } else {
            0nat
        }) + count_events(events.subrange(1, events.len() as int), f)
    }
}

/// How many times the scratch buffer was allocated.
pub open spec fn acquisitions(events: Seq<Event>) -> nat {
    count_events(events, |e: Event| e is Acquired)
}

/// How many times the scratch buffer could not be had: it could not be laid
/// out, or the allocator refused it.
pub open spec fn alloc_failures(events: Seq<Event>) -> nat {
    count_events(events, |e: Event| e is AcquireFailed || e is AllocatorRefused)
}

/// How many times the native routine handed back no result.
pub open spec fn native_failures(events: Seq<Event>) -> nat {
    count_events(events, |e: Event| e is NativeFailed)
}

proof fn lemma_count_cons(a: Action, rest: Seq<Action>, b: Action)
    ensures
        count_action(seq![a] + rest, b) == (if a == b {
            1nat
        } else {
            0nat
        }) + count_action(rest, b),
{
    assert((seq![a] + rest).subrange(1, (seq![a] + rest).len() as int) =~= rest);
}

/// Once the buffer is held or released, no event other than those that
/// follow acquisition is taken, and the outcome no longer changes after the
/// native routine is heard from.
proof fn lemma_after_acquire(s: CallState, events: Seq<Event>)
    requires
        !(s.phase is Idle || s.phase is Acquiring),
        runs(s, events),
    ensures
        acquisitions(events) == 0,
        alloc_failures(events) == 0,
        (s.phase is Releasing || s.phase is Finished) ==> native_failures(events) == 0 && run(
            s,
            events,
        ).0.outcome == s.outcome,
    decreases events.len(),
{
    if events.len() > 0 {
        lemma_after_acquire(next(s, events[0]).0, events.subrange(1, events.len() as int));
    }
}

proof fn lemma_release_count(s: CallState, events: Seq<Event>)
    requires
        runs(s, events),
        run(s, events).0.phase is Finished,
    ensures
        count_action(run(s, events).1, Action::Release) == acquisitions(events) + (
        if s.phase is Invoking {
            1nat
        } else {
            0nat
        }),
        acquisitions(events) <= (if s.phase is Idle || s.phase is Acquiring {
            1nat
        } else {
            0nat
        }),
    decreases events.len(),
{
    if events.len() > 0 {
        let step = next(s, events[0]);
        let rest = events.subrange(1, events.len() as int);
        lemma_release_count(step.0, rest);
        lemma_count_cons(step.1, run(step.0, rest).1, Action::Release);
        if !(step.0.phase is Idle || step.0.phase is Acquiring) {
            lemma_after_acquire(step.0, rest);
        }
    }
}

/// A call that runs to its end asks for the scratch buffer to be freed
/// exactly as many times as it was allocated, which is at most once: once
/// after a success or a native failure, never after the buffer could not be had.
pub proof fn lemma_release_once(events: Seq<Event>)
    requires
        runs(initial(), events),
        run(initial(), events).0.phase is Finished,
    ensures
        count_action(run(initial(), events).1, Action::Release) == acquisitions(events),
        acquisitions(events) <= 1,
{
    lemma_release_count(initial(), events);
}

proof fn lemma_alloc_failure_from(s: CallState, events: Seq<Event>)
    requires
        s.phase is Idle || s.phase is Acquiring,
        runs(s, events),
        alloc_failures(events) > 0,
    ensures
        count_action(run(s, events).1, Action::Invoke) == 0,
        count_action(run(s, events).1, Action::Release) == 0,
        run(s, events).0.phase is Finished,
        run(s, events).0.outcome matches Some(Err(e)) && e.is_allocation_error(),
    decreases events.len(),
{
    let step = next(s, events[0]);
    let rest = events.subrange(1, events.len() as int);
    lemma_count_cons(step.1, run(step.0, rest).1, Action::Invoke);
    lemma_count_cons(step.1, run(step.0, rest).1, Action::Release);
    if events[0] is AcquireFailed || events[0] is AllocatorRefused {
        assert(runs(step.0, rest));
        if rest.len() > 0 {
            assert(!accepts(step.0.phase, rest[0]));
        }
        assert(rest.len() == 0);
    } else if events[0] is Acquired {
        lemma_after_acquire(step.0, rest);
    } else {
        lemma_alloc_failure_from(step.0, rest);
    }
}

/// When the scratch buffer cannot be had, the call never runs the native
/// routine and never frees a buffer, and it ends with an allocation error.
pub proof fn lemma_alloc_failure(events: Seq<Event>)
    requires
        runs(initial(), events),
        alloc_failures(events) > 0,
    ensures
        count_action(run(initial(), events).1, Action::Invoke) == 0,
        count_action(run(initial(), events).1, Action::Release) == 0,
        run(initial(), events).0.outcome matches Some(Err(e)) && e.is_allocation_error(),
{
    lemma_alloc_failure_from(initial(), events);
}

proof fn lemma_native_failure_from(s: CallState, events: Seq<Event>)
    requires
        s.phase is Idle || s.phase is Acquiring || s.phase is Invoking,
        runs(s, events),
        native_failures(events) > 0,
    ensures
        run(s, events).0.outcome == Some(
            Err::<Seq<crate::face::FaceView>, LibfacedetectionError>(
                LibfacedetectionError::FaceDetectionError,
            ),
        ),
    decreases events.len(),
{
    let step = next(s, events[0]);
    let rest = events.subrange(1, events.len() as int);
    if events[0] is NativeFailed {
        lemma_after_acquire(step.0, rest);
    } else if step.0.phase is Releasing || step.0.phase is Finished {
        if step.0.phase is Finished && rest.len() > 0 {
            assert(!accepts(step.0.phase, rest[0]));
        }
        lemma_after_acquire(step.0, rest);
    } else {
        lemma_native_failure_from(step.0, rest);
    }
}

/// When the native routine hands back no result, the call ends with the
/// native error and decodes nothing, and the scratch buffer is freed once.
pub proof fn lemma_native_failure(events: Seq<Event>)
    requires
        runs(initial(), events),
        run(initial(), events).0.phase is Finished,
        native_failures(events) > 0,
    ensures
        run(initial(), events).0.outcome == Some(
            Err::<Seq<crate::face::FaceView>, LibfacedetectionError>(
                LibfacedetectionError::FaceDetectionError,
            ),
        ),
        count_action(run(initial(), events).1, Action::Release) == 1,
{
    lemma_native_failure_from(initial(), events);
    lemma_release_count(initial(), events);
    assert(acquisitions(events) == 1) by {
        if acquisitions(events) == 0 {
            lemma_no_native_without_acquire(initial(), events);
        }
    }
}

proof fn lemma_no_native_without_acquire(s: CallState, events: Seq<Event>)
    requires
        s.phase is Idle || s.phase is Acquiring,
        runs(s, events),
        acquisitions(events) == 0,
    ensures
        native_failures(events) == 0,
    decreases events.len(),
{
    if events.len() > 0 {
        let step = next(s, events[0]);
        let rest = events.subrange(1, events.len() as int);
        if step.0.phase is Finished {
            assert(runs(step.0, rest));
            if rest.len() > 0 {
                assert(!accepts(step.0.phase, rest[0]));
            }
            assert(rest.len() == 0);
            assert(native_failures(rest) == 0);
        } else {
            lemma_no_native_without_acquire(step.0, rest);
        }
    }
}

/// A decoded result holds one face for each face the count announces (none
/// for a count of zero or less), and each face has exactly five landmarks.
pub proof fn lemma_decoded_shape(face_count: i32, records: Seq<u16>)
    ensures
        decoded(face_count, records).len() == face_total(face_count),
        face_count <= 0 ==> decoded(face_count, records) == Seq::<crate::face::FaceView>::empty(),
        forall|i: int|
            0 <= i < face_total(face_count) ==> (#[trigger] decoded(face_count, records)[i]).landmarks.len() == 5,
{
    if face_count <= 0 {
        assert(decoded(face_count, records) =~= Seq::<crate::face::FaceView>::empty());
    }
}

/// Each decoded face depends on its own record alone: face `i` is what the
/// `RECORD_SLOTS` slots starting at slot `RECORD_SLOTS * i` describe, whatever
/// the other records hold.
pub proof fn lemma_records_independent(face_count: i32, records: Seq<u16>, i: int)
    requires
        RECORD_SLOTS * face_total(face_count) <= records.len(),
        0 <= i < face_total(face_count),
    ensures
        decoded(face_count, records)[i] == record_at(
            records.subrange(RECORD_SLOTS * i, RECORD_SLOTS * i + RECORD_SLOTS),
            0,
        ),
{
    let own = records.subrange(RECORD_SLOTS * i, RECORD_SLOTS * i + RECORD_SLOTS);
    assert(RECORD_SLOTS * i + RECORD_SLOTS <= RECORD_SLOTS * face_total(face_count)) by (nonlinear_arith)
        requires
            i + 1 <= face_total(face_count),
    ;
    assert(decoded(face_count, records)[i].landmarks =~= record_at(own, 0).landmarks);
}

} // verus!
