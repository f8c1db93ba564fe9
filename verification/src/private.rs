//! Keeps the set of handle wrappers closed.

use vstd::prelude::*;

verus! {

/// Implemented by the handle wrappers of this crate and by nothing else.
pub trait Sealed {
}

} // verus!
