//! The adapter as mathematics: what each operation asks for, and what it makes of the
//! answer.
//!
//! An operation is run in steps. It is first asked with no reply, and names the foreign
//! call to make, or is over at once. It is then asked again with the address that the
//! call returned, and is over.

use crate::error::{Abort, AllocErr, Excess};
use crate::foreign::{ForeignCall, Handle, Step};
use crate::layout::Layout;
use vstd::prelude::*;

verus! {

/// What an address returned for `request` means: null is a refusal of that request,
/// any other address is the block.
pub open spec fn settled(addr: usize, request: Layout) -> Result<Handle, AllocErr> {
    if addr == 0 {
        Err(AllocErr::Exhausted { request })
    } else {
        Ok(Handle { addr })
    }
}

/// `result` with `usable` reported as the block's usable size.
pub open spec fn reporting(result: Result<Handle, AllocErr>, usable: usize) -> Result<
    Excess,
    AllocErr,
> {
    match result {
        Ok(block) => Ok(Excess(block, usable)),
        Err(err) => Err(err),
    }
}

/// `step`, with `usable` reported as the usable size of the block it may end with.
pub open spec fn reporting_step(step: Step<Result<Handle, AllocErr>>, usable: usize) -> Step<
    Result<Excess, AllocErr>,
> {
    match step {
        Step::Call(call) => Step::Call(call),
        Step::Done(result) => Step::Done(reporting(result, usable)),
    }
}

/// Allocation: one `mem_alloc` of the requested size, then the block or the refusal.
pub open spec fn alloc_step(layout: Layout, reply: Option<usize>) -> Step<
    Result<Handle, AllocErr>,
> {
    match reply {
        None => Step::Call(ForeignCall::Allocate { size: layout.size }),
        Some(addr) => Step::Done(settled(addr, layout)),
    }
}

/// Zeroed allocation: one `mem_zalloc` of the requested size, then the block or the
/// refusal.
pub open spec fn alloc_zeroed_step(layout: Layout, reply: Option<usize>) -> Step<
    Result<Handle, AllocErr>,
> {
    match reply {
        None => Step::Call(ForeignCall::ZeroAllocate { size: layout.size }),
        Some(addr) => Step::Done(settled(addr, layout)),
    }
}

/// Allocation that reports a usable size: as `alloc_step`, and the size reported is the
/// size asked for.
pub open spec fn alloc_excess_step(layout: Layout, reply: Option<usize>) -> Step<
    Result<Excess, AllocErr>,
> {
    reporting_step(alloc_step(layout, reply), layout.size)
}

/// Release: one `mem_deref` of the block. What that call returns is not looked at.
pub open spec fn dealloc_step(ptr: Handle, layout: Layout, reply: Option<usize>) -> Step<()> {
    match reply {
        None => Step::Call(ForeignCall::Release { data: ptr.addr }),
        Some(_) => Step::Done(()),
    }
}

/// The only change of layout that the foreign allocator cannot express.
pub open spec fn changes_align(old_layout: Layout, new_layout: Layout) -> bool {
    old_layout.align != new_layout.align
}

/// The refusal of a change of alignment.
pub open spec fn cannot_change_align() -> AllocErr {
    AllocErr::Unsupported { details: "cannot change align" }
}

/// Reallocation: refused with no call where the alignment would change; else one
/// `mem_realloc` of the block to the new size, then the block or the refusal of the
/// new layout.
pub open spec fn realloc_step(
    ptr: Handle,
    old_layout: Layout,
    new_layout: Layout,
    reply: Option<usize>,
) -> Step<Result<Handle, AllocErr>> {
    if changes_align(old_layout, new_layout) {
        Step::Done(Err(cannot_change_align()))
    } else {
        match reply {
            None => Step::Call(ForeignCall::Reallocate { data: ptr.addr, size: new_layout.size }),
            Some(addr) => Step::Done(settled(addr, new_layout)),
        }
    }
}

/// Reallocation that reports a usable size: as `realloc_step`, and the size reported is
/// the new size asked for.
pub open spec fn realloc_excess_step(
    ptr: Handle,
    old_layout: Layout,
    new_layout: Layout,
    reply: Option<usize>,
) -> Step<Result<Excess, AllocErr>> {
    reporting_step(realloc_step(ptr, old_layout, new_layout, reply), new_layout.size)
}

/// Running out of memory: one `mem_debug`, then the process terminates with `err`.
pub open spec fn oom_step(err: AllocErr, dumped: bool) -> Step<Abort> {
    if dumped {
        Step::Done(Abort { detail: err })
    } else {
        Step::Call(ForeignCall::DebugDump)
    }
}

} // verus!
