//! The scratch buffer that the native routine writes its result into.
//!
//! Its size and alignment are fixed by the native routine, which assumes them
//! without checking: a smaller buffer corrupts memory instead of failing. They
//! are constants here and never configurable.
use vstd::prelude::*;
use vstd::layout::valid_layout;
use vstd::arithmetic::power2::is_pow2;

verus! {

/// Size in bytes of the scratch buffer. Do not change.
pub const BUF_SIZE: usize = 0x20000;

/// Alignment in bytes of the scratch buffer. Do not change.
pub const BUF_ALIGN: usize = 32;

/// Declares std's `Layout` so that signatures may carry it; its contents stay hidden.
#[verifier::external_type_specification]
#[verifier::external_body]
pub struct ExLayout(core::alloc::Layout);

/// The size in bytes that a layout describes, as `Layout::size` reports it.
pub uninterp spec fn layout_size(l: core::alloc::Layout) -> usize;

/// The alignment in bytes that a layout describes, as `Layout::align` reports it.
pub uninterp spec fn layout_align(l: core::alloc::Layout) -> usize;

/// Relies on `Layout::size`: the size of the layout, which it only reads.
pub assume_specification[ core::alloc::Layout::size ](l: &core::alloc::Layout) -> (r: usize)
    ensures
        r == layout_size(*l),
;

/// Relies on `Layout::align`: the alignment of the layout, which it only reads.
pub assume_specification[ core::alloc::Layout::align ](l: &core::alloc::Layout) -> (r: usize)
    ensures
        r == layout_align(*l),
;

/// Relies on `Layout::from_size_align`, which by its documentation succeeds
/// exactly when `align` is a non-zero power of two and `size`, rounded up to a
/// multiple of `align`, does not exceed `isize::MAX`, and then describes a
/// block of `size` bytes aligned to `align`.
pub assume_specification[ core::alloc::Layout::from_size_align ](size: usize, align: usize) -> (r:
    Result<core::alloc::Layout, core::alloc::LayoutError>)
    ensures
        r is Ok <==> valid_layout(size, align),
        r is Ok ==> layout_size(r->Ok_0) == size && layout_align(r->Ok_0) == align,
;

/// Lays out the scratch buffer: `BUF_SIZE` bytes aligned to `BUF_ALIGN`.
/// These constants always form a valid layout, so this never fails.
pub fn scratch_layout() -> (r: Result<core::alloc::Layout, core::alloc::LayoutError>)
    ensures
        r is Ok,
        layout_size(r->Ok_0) == BUF_SIZE,
        layout_align(r->Ok_0) == BUF_ALIGN,
{
    proof {
        reveal_with_fuel(is_pow2, 7);
        assert(is_pow2(BUF_ALIGN as int));
    }
    core::alloc::Layout::from_size_align(BUF_SIZE, BUF_ALIGN)
}

} // verus!
