//! Reads the native routine's packed result into faces.
//!
//! The result area starts with a four-byte signed face count, which the
//! native routine writes in machine order and which is read there before
//! decoding. The record area follows it: one record per face, each
//! `RECORD_SLOTS` two-byte slots wide. Record `i` starts at slot
//! `RECORD_SLOTS * i` of the record area, whatever the records before it hold.
//! The native routine promises that it wrote as many complete records as the
//! count says; the decoder's precondition states that promise.
use vstd::prelude::*;
use crate::face::{Face, FaceView, RECORD_SLOTS, record_at};

verus! {

/// The faces of one successful detection, in the order the native routine
/// wrote them.
#[derive(Debug)]
pub struct DetectionResult {
    pub faces: Vec<Face>,
}

/// Number of faces a count field stands for: none when it is zero or negative.
pub open spec fn face_total(count: i32) -> nat {
    if count <= 0 {
        0
    } else {
        count as nat
    }
}

/// The record area holds a complete record for each face the count announces.
pub open spec fn records_fit(count: i32, area_len: int) -> bool {
    RECORD_SLOTS * face_total(count) <= area_len
}

/// The number of slots that the records of `face_count` faces span, or `None`
/// when they do not fit in the `room` slots that follow the count.
pub fn record_area_slots(face_count: i32, room: usize) -> (r: Option<usize>)
    ensures
        r is Some <==> records_fit(face_count, room as int),
        r matches Some(n) ==> n == RECORD_SLOTS * face_total(face_count),
{
    if face_count <= 0 {
        Some(0)
    } else if face_count as usize <= room / RECORD_SLOTS {
        let n: usize = face_count as usize;
        assert(RECORD_SLOTS * n <= room) by (nonlinear_arith)
            requires
                n <= room / 142,
                RECORD_SLOTS == 142,
        ;
        Some(RECORD_SLOTS * n)
    } else {
        let n: usize = face_count as usize;
        assert(RECORD_SLOTS * n > room) by (nonlinear_arith)
            requires
                n > room / 142,
                RECORD_SLOTS == 142,
        ;
        None
    }
}

/// The faces that a count and a record area describe.
pub open spec fn decoded(count: i32, records: Seq<u16>) -> Seq<FaceView> {
    Seq::new(face_total(count), |i: int| record_at(records, RECORD_SLOTS * i))
}

/// What each face of a sequence holds.
pub open spec fn views(faces: Seq<Face>) -> Seq<FaceView> {
    faces.map_values(|f: Face| f@)
}

/// Decodes `face_count` records from the record area `records`.
pub fn decode(face_count: i32, records: &[u16]) -> (faces: Vec<Face>)
    requires
        records_fit(face_count, records@.len() as int),
    ensures
        faces@.len() == face_total(face_count),
        forall|i: int| 0 <= i < faces@.len() ==> (#[trigger] faces@[i])@ == record_at(records@, RECORD_SLOTS * i),
        views(faces@) == decoded(face_count, records@),
{
    let n: usize = if face_count <= 0 {
        0
    } else {
        face_count as usize
    };
    let mut faces: Vec<Face> = Vec::with_capacity(n);
    let mut idx: usize = 0;
    while idx < n
        invariant
            n == face_total(face_count),
            RECORD_SLOTS * n <= records.len(),
            idx <= n,
            faces@.len() == idx,
            forall|i: int| 0 <= i < idx ==> #[trigger] faces@[i]@ == record_at(records@, RECORD_SLOTS * i),
        decreases n - idx,
    {
        let face = Face::from_slots(records, RECORD_SLOTS * idx);
        faces.push(face);
        idx = idx + 1;
    }
    assert(views(faces@) =~= decoded(face_count, records@));
    faces
}

} // verus!
