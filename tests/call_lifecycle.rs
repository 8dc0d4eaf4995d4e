use libfacedetection::call::{Action, DetectionCall, Event, Phase};
use libfacedetection::error::LibfacedetectionError;
use libfacedetection::face::RECORD_SLOTS;
use libfacedetection::scratch::BUF_SIZE;

fn drive(call: &mut DetectionCall, events: Vec<Event>) -> Vec<Action> {
    let mut actions = Vec::new();
    for e in events {
        assert!(call.accepts(&e));
        actions.push(call.step(e));
    }
    actions
}

fn count(actions: &[Action], a: Action) -> usize {
    actions.iter().filter(|x| **x == a).count()
}

#[test]
fn success_path_releases_once_and_returns_faces() {
    let mut records = vec![0u16; RECORD_SLOTS];
    records[0] = 93;
    let mut call = DetectionCall::new();
    let actions = drive(
        &mut call,
        vec![
            Event::Begin,
            Event::Acquired,
            Event::NativeDone { face_count: 1, records },
            Event::Released,
        ],
    );
    assert_eq!(actions, vec![Action::Acquire, Action::Invoke, Action::Release, Action::Return]);
    assert_eq!(count(&actions, Action::Release), 1);
    assert_eq!(call.phase(), Phase::Finished);
    let result = call.finish().expect("detection succeeded");
    assert_eq!(result.faces.len(), 1);
    assert_eq!(result.faces[0].confidence, 93);
    assert_eq!(result.faces[0].landmarks.len(), 5);
}

#[test]
fn no_faces_is_success_with_empty_result() {
    let mut call = DetectionCall::new();
    let actions = drive(
        &mut call,
        vec![
            Event::Begin,
            Event::Acquired,
            Event::NativeDone { face_count: 0, records: Vec::new() },
            Event::Released,
        ],
    );
    assert_eq!(count(&actions, Action::Release), 1);
    assert!(call.finish().expect("detection succeeded").faces.is_empty());
}

#[test]
fn native_failure_releases_once_and_reports_it() {
    let mut call = DetectionCall::new();
    let actions = drive(
        &mut call,
        vec![Event::Begin, Event::Acquired, Event::NativeFailed, Event::Released],
    );
    assert_eq!(actions, vec![Action::Acquire, Action::Invoke, Action::Release, Action::Return]);
    assert!(matches!(call.finish(), Err(LibfacedetectionError::FaceDetectionError)));
}

#[test]
fn allocation_failure_never_invokes_nor_releases() {
    let err = std::alloc::Layout::from_size_align(BUF_SIZE, 3).unwrap_err();
    let mut call = DetectionCall::new();
    let actions = drive(&mut call, vec![Event::Begin, Event::AcquireFailed(err)]);
    assert_eq!(actions, vec![Action::Acquire, Action::Return]);
    assert_eq!(count(&actions, Action::Invoke), 0);
    assert_eq!(count(&actions, Action::Release), 0);
    assert!(matches!(call.finish(), Err(LibfacedetectionError::AllocError(_))));
}

#[test]
fn events_out_of_order_are_refused() {
    let mut call = DetectionCall::new();
    assert!(!call.accepts(&Event::Acquired));
    assert!(!call.accepts(&Event::Released));
    assert!(!call.accepts(&Event::NativeFailed));
    call.step(Event::Begin);
    assert!(!call.accepts(&Event::Begin));
    assert!(!call.accepts(&Event::NativeFailed));
    call.step(Event::Acquired);
    assert!(!call.accepts(&Event::Released));
    call.step(Event::NativeFailed);
    assert!(call.accepts(&Event::Released));
    call.step(Event::Released);
    assert!(!call.accepts(&Event::Begin));
    assert!(!call.accepts(&Event::Released));
}

#[test]
fn short_record_area_is_refused() {
    let mut call = DetectionCall::new();
    call.step(Event::Begin);
    call.step(Event::Acquired);
    let short = Event::NativeDone { face_count: 2, records: vec![0u16; 2 * RECORD_SLOTS - 1] };
    assert!(!call.accepts(&short));
    let exact = Event::NativeDone { face_count: 2, records: vec![0u16; 2 * RECORD_SLOTS] };
    assert!(call.accepts(&exact));
    assert_eq!(call.phase(), Phase::Invoking);
}

#[test]
fn allocator_refusal_never_invokes_nor_releases() {
    let mut call = DetectionCall::new();
    let actions = drive(&mut call, vec![Event::Begin, Event::AllocatorRefused]);
    assert_eq!(actions, vec![Action::Acquire, Action::Return]);
    assert!(matches!(call.finish(), Err(LibfacedetectionError::AllocatorRefused)));
}
