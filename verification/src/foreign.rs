//! The boundary to the foreign allocator: the calls that the adapter asks for, and the
//! addresses that come back.

use vstd::prelude::*;

verus! {

/// One call into the foreign allocator, with its arguments.
///
/// The adapter never makes a call itself. It names the call, and whoever drives the
/// adapter makes it and hands back what it returned.
#[derive(Clone, Copy, Debug, PartialEq, Eq, Structural)]
pub enum ForeignCall {
    /// `mem_alloc`: a new block of `size` bytes, with no destroy handler.
    Allocate { size: usize },
    /// `mem_zalloc`: a new zero-filled block of `size` bytes, with no destroy handler.
    ZeroAllocate { size: usize },
    /// `mem_realloc`: the block at `data` resized to `size` bytes.
    Reallocate { data: usize, size: usize },
    /// `mem_deref`: one reference to the block at `data` given up.
    Release { data: usize },
    /// `mem_debug`: the foreign allocator's diagnostics written out.
    DebugDump,
}

/// The address of a block that the foreign allocator handed out.
///
/// A handle is a plain value. It frees nothing when it goes away: the block lives until
/// the foreign allocator has counted its references down to zero.
#[derive(Clone, Copy, Debug, PartialEq, Eq, Structural)]
pub struct Handle {
    /// Where the block starts.
    pub addr: usize,
}

impl Handle {
    /// A handle is well formed when it is not the null address.
    pub open spec fn wf(self) -> bool {
        self.addr != 0
    }

    /// The handle for `addr`, unless `addr` is the null address.
    pub fn from_addr(addr: usize) -> (r: Option<Handle>)
        ensures
            addr == 0 ==> r is None,
            addr != 0 ==> r == Some(Handle { addr }),
    {
        if addr == 0 {
            None
        } else {
            Some(Handle { addr })
        }
    }

    /// Where the block starts.
    pub fn addr(&self) -> (a: usize)
        ensures
            a == self.addr,
    {
        self.addr
    }
}

/// What an operation of the adapter asks of its driver next.
#[derive(Debug, PartialEq, Eq)]
pub enum Step<T> {
    /// Make this call, then ask again with what it returned.
    Call(ForeignCall),
    /// The operation is over, and this is its result.
    Done(T),
}

} // verus!
