//! The errors that a detection call can end with.
use vstd::prelude::*;

verus! {

/// Declares std's `LayoutError`, which an allocation error carries.
#[verifier::external_type_specification]
#[verifier::external_body]
pub struct ExLayoutError(core::alloc::LayoutError);

/// Why a detection call failed.
#[derive(Debug)]
pub enum LibfacedetectionError {
    /// The scratch buffer could not be laid out with the size and alignment asked for.
    AllocError(core::alloc::LayoutError),
    /// The allocator could not supply the scratch buffer.
    AllocatorRefused,
    /// The native routine reported a failure (it handed back no result).
    FaceDetectionError,
}

impl LibfacedetectionError {
    /// The scratch buffer could not be had, for either reason.
    pub open spec fn is_allocation_error(self) -> bool {
        self is AllocError || self is AllocatorRefused
    }
}

} // verus!
