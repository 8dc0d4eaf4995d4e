//! A safe, verified layer over a native face detector that writes its
//! findings into a fixed-size scratch buffer.
use vstd::prelude::*;

pub mod error;
pub mod call;
pub mod decode;
pub mod face;
pub mod lifecycle;
pub mod scratch;

verus! {

} // verus!
