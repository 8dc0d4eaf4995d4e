use libfacedetection::decode::{decode, record_area_slots, DetectionResult};
use libfacedetection::face::{Face, LANDMARK_COUNT, RECORD_SLOTS};

fn record(values: &[u16]) -> Vec<u16> {
    let mut slots = vec![0u16; RECORD_SLOTS];
    slots[..values.len()].copy_from_slice(values);
    slots
}

#[test]
fn decode_zero_faces_is_empty() {
    let faces = decode(0, &[]);
    assert!(faces.is_empty());
}

#[test]
fn decode_negative_count_is_empty() {
    let faces = decode(-4, &[7, 7, 7]);
    assert!(faces.is_empty());
}

#[test]
fn decode_one_record_reads_every_field() {
    let slots = record(&[87, 10, 20, 30, 40, 1, 2, 3, 4, 5, 6, 7, 8, 9, 10]);
    let faces = decode(1, &slots);
    assert_eq!(faces.len(), 1);
    let f = faces[0];
    assert_eq!(f.confidence, 87);
    assert_eq!((f.x, f.y, f.width, f.height), (10, 20, 30, 40));
    assert_eq!(f.landmarks, [(1, 2), (3, 4), (5, 6), (7, 8), (9, 10)]);
    assert_eq!(f.landmarks.len(), LANDMARK_COUNT);
}

#[test]
fn decode_two_records_do_not_mix() {
    let mut slots = record(&[50, 1, 2, 3, 4, 11, 12, 13, 14, 15, 16, 17, 18, 19, 20]);
    slots.extend(record(&[99, 5, 6, 7, 8, 21, 22, 23, 24, 25, 26, 27, 28, 29, 30]));
    let faces = decode(2, &slots);
    assert_eq!(faces.len(), 2);
    assert_eq!(faces[0].confidence, 50);
    assert_eq!(faces[1].confidence, 99);
    assert_eq!((faces[0].x, faces[0].y, faces[0].width, faces[0].height), (1, 2, 3, 4));
    assert_eq!((faces[1].x, faces[1].y, faces[1].width, faces[1].height), (5, 6, 7, 8));
    assert_eq!(faces[0].landmarks, [(11, 12), (13, 14), (15, 16), (17, 18), (19, 20)]);
    assert_eq!(faces[1].landmarks, [(21, 22), (23, 24), (25, 26), (27, 28), (29, 30)]);
}

#[test]
fn decode_ignores_slots_past_the_count() {
    let mut slots = record(&[60, 1, 1, 1, 1]);
    slots.extend(record(&[61, 2, 2, 2, 2]));
    let faces = decode(1, &slots);
    assert_eq!(faces.len(), 1);
    assert_eq!(faces[0].confidence, 60);
}

#[test]
fn face_from_slots_reads_at_its_base() {
    let mut slots = vec![0u16; 20];
    for (i, s) in slots.iter_mut().enumerate() {
        *s = i as u16;
    }
    let f = Face::from_slots(&slots, 3);
    assert_eq!(f.confidence, 3);
    assert_eq!(f.height, 7);
    assert_eq!(f.landmarks, [(8, 9), (10, 11), (12, 13), (14, 15), (16, 17)]);
}

#[test]
fn detection_result_holds_faces_in_order() {
    let mut slots = record(&[10]);
    slots.extend(record(&[20]));
    slots.extend(record(&[30]));
    let result = DetectionResult { faces: decode(3, &slots) };
    let confidences: Vec<u16> = result.faces.iter().map(|f| f.confidence).collect();
    assert_eq!(confidences, vec![10, 20, 30]);
}

#[test]
fn record_area_slots_counts_whole_records() {
    assert_eq!(record_area_slots(0, 0), Some(0));
    assert_eq!(record_area_slots(-5, 0), Some(0));
    assert_eq!(record_area_slots(2, 284), Some(284));
    assert_eq!(record_area_slots(2, 283), None);
    assert_eq!(record_area_slots(461, 65534), Some(461 * 142));
    assert_eq!(record_area_slots(i32::MAX, 65534), None);
}
