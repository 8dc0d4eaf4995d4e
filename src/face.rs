//! One detected face and how it is read out of a record of the result area.
use vstd::prelude::*;

verus! {

/// Number of two-byte slots that one record of the result area spans.
pub const RECORD_SLOTS: usize = 142;

/// Number of landmarks reported for each face.
pub const LANDMARK_COUNT: usize = 5;

/// A detected face description.
#[derive(Debug, Clone, Copy, PartialEq, Eq)]
pub struct Face {
    /// Confidence level, 0 to 100.
    pub confidence: u16,
    /// Left edge of the bounding box.
    pub x: u16,
    /// Top edge of the bounding box.
    pub y: u16,
    /// Width of the bounding box.
    pub width: u16,
    /// Height of the bounding box.
    pub height: u16,
    /// Landmarks (eyes, nose, mouth corners), each an (x, y) pair.
    pub landmarks: [(u16, u16); 5],
}

/// What a `Face` holds, with the landmarks as a sequence.
pub struct FaceView {
    pub confidence: u16,
    pub x: u16,
    pub y: u16,
    pub width: u16,
    pub height: u16,
    pub landmarks: Seq<(u16, u16)>,
}

impl View for Face {
    type V = FaceView;

    open spec fn view(&self) -> FaceView {
        FaceView {
            confidence: self.confidence,
            x: self.x,
            y: self.y,
            width: self.width,
            height: self.height,
            landmarks: self.landmarks@,
        }
    }
}

/// The face that the record starting at slot `base` of `slots` describes:
/// five header slots, then five (x, y) landmark pairs.
pub open spec fn record_at(slots: Seq<u16>, base: int) -> FaceView {
    FaceView {
        confidence: slots[base],
        x: slots[base + 1],
        y: slots[base + 2],
        width: slots[base + 3],
        height: slots[base + 4],
        landmarks: Seq::new(5, |k: int| (slots[base + 5 + 2 * k], slots[base + 6 + 2 * k])),
    }
}

impl Face {
    /// Reads the record that starts at slot `base`.
    pub fn from_slots(slots: &[u16], base: usize) -> (f: Face)
        requires
            base + 15 <= slots@.len(),
        ensures
            f@ == record_at(slots@, base as int),
    {
        let mut landmarks: [(u16, u16); 5] = [(0, 0); 5];
        let mut idx: usize = 0;
        while idx < LANDMARK_COUNT
            invariant
                idx <= 5,
                base + 15 <= slots.len(),
                forall|k: int| 0 <= k < idx ==> #[trigger] landmarks@[k] == (
                    slots@[base + 5 + 2 * k],
                    slots@[base + 6 + 2 * k],
                ),
            decreases 5 - idx,
        {
            landmarks[idx] = (slots[base + 5 + idx * 2], slots[base + 5 + idx * 2 + 1]);
            idx = idx + 1;
        }
        let f = Face {
            confidence: slots[base],
            x: slots[base + 1],
            y: slots[base + 2],
            width: slots[base + 3],
            height: slots[base + 4],
            landmarks,
        };
        assert(f.landmarks@ =~= record_at(slots@, base as int).landmarks);
        f
    }
}

} // verus!
