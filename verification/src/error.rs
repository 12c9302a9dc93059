//! The results that the adapter reports.

use crate::foreign::Handle;
use crate::layout::Layout;
use vstd::prelude::*;

verus! {

/// Why a request for memory failed.
#[derive(Clone, Copy, Debug, PartialEq, Eq)]
pub enum AllocErr {
    /// The foreign allocator refused the request and returned null.
    Exhausted {
        /// The layout that was asked for.
        request: Layout,
    },
    /// The request cannot be put to the foreign allocator at all.
    Unsupported {
        /// What it is that cannot be done.
        details: &'static str,
    },
}

/// A block cannot be resized where it lies.
#[derive(Clone, Copy, Debug, PartialEq, Eq, Structural)]
pub struct CannotReallocInPlace;

/// A block together with the number of bytes in it that may be used.
#[derive(Clone, Copy, Debug, PartialEq, Eq, Structural)]
pub struct Excess(pub Handle, pub usize);

/// The end of an operation that does not return: the process terminates.
#[derive(Clone, Copy, Debug, PartialEq, Eq)]
pub struct Abort {
    /// The failure that the process reports as it terminates.
    pub detail: AllocErr,
}

} // verus!
