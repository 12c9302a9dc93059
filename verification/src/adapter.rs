//! The adapter itself.

use crate::error::{Abort, AllocErr, CannotReallocInPlace, Excess};
use crate::foreign::{ForeignCall, Handle, Step};
use crate::layout::Layout;
use crate::model::{
    alloc_excess_step, alloc_step, alloc_zeroed_step, dealloc_step, oom_step,
    realloc_excess_step, realloc_step, reporting, settled,
};
use vstd::prelude::*;

verus! {

/// The allocator of libre, seen as an allocator for containers.
///
/// Every operation but the two in-place ones is run in steps: asked with `None` it names
/// the foreign call to make, asked with `Some` of what that call returned it gives the
/// result. No operation asks for a second call.
#[derive(Clone, Copy, Debug)]
pub struct LibreAlloc;

/// Turns the address that a foreign call returned for `request` into a result: null
/// becomes the refusal of `request`, and never leaves as a handle.
pub fn settle(addr: usize, request: Layout) -> (r: Result<Handle, AllocErr>)
    ensures
        r == settled(addr, request),
        addr == 0 <==> r == Err::<Handle, AllocErr>(AllocErr::Exhausted { request }),
        r matches Ok(block) ==> block.wf() && block.addr == addr,
{
    match Handle::from_addr(addr) {
        Some(block) => Ok(block),
        None => Err(AllocErr::Exhausted { request }),
    }
}

/// As `settle`, with `request.size` reported as the block's usable size.
pub fn settle_excess(addr: usize, request: Layout) -> (r: Result<Excess, AllocErr>)
    ensures
        r == reporting(settled(addr, request), request.size),
        addr == 0 <==> r == Err::<Excess, AllocErr>(AllocErr::Exhausted { request }),
        r matches Ok(excess) ==> excess.0.wf() && excess.0.addr == addr && excess.1
            == request.size,
{
    match settle(addr, request) {
        Ok(block) => Ok(Excess(block, request.size)),
        Err(err) => Err(err),
    }
}

/// The call that writes out the foreign allocator's diagnostics.
pub fn print_debug() -> (call: ForeignCall)
    ensures
        call == ForeignCall::DebugDump,
{
    ForeignCall::DebugDump
}

impl LibreAlloc {
    /// Allocates a block that fits `layout`: one `mem_alloc` of `layout.size` bytes. A
    /// null reply is the refusal of `layout`, any other reply is the block.
    pub fn allocate(&self, layout: Layout, reply: Option<usize>) -> (step: Step<
        Result<Handle, AllocErr>,
    >)
        ensures
            step == alloc_step(layout, reply),
            reply == Some(0usize) ==> step == Step::Done(
                Err::<Handle, AllocErr>(AllocErr::Exhausted { request: layout }),
            ),
            step matches Step::Done(Ok(block)) ==> block.wf() && reply == Some(block.addr),
    {
        match reply {
            None => Step::Call(ForeignCall::Allocate { size: layout.size() }),
            Some(addr) => Step::Done(settle(addr, layout)),
        }
    }

    /// Allocates a zero-filled block that fits `layout`: one `mem_zalloc` of
    /// `layout.size` bytes. A null reply is the refusal of `layout`, any other reply is
    /// the block.
    pub fn alloc_zeroed(&self, layout: Layout, reply: Option<usize>) -> (step: Step<
        Result<Handle, AllocErr>,
    >)
        ensures
            step == alloc_zeroed_step(layout, reply),
            reply == Some(0usize) ==> step == Step::Done(
                Err::<Handle, AllocErr>(AllocErr::Exhausted { request: layout }),
            ),
            step matches Step::Done(Ok(block)) ==> block.wf() && reply == Some(block.addr),
    {
        match reply {
            None => Step::Call(ForeignCall::ZeroAllocate { size: layout.size() }),
            Some(addr) => Step::Done(settle(addr, layout)),
        }
    }

    /// Allocates a block that fits `layout`, and reports how much of it may be used:
    /// the size asked for, never more.
    pub fn alloc_excess(&self, layout: Layout, reply: Option<usize>) -> (step: Step<
        Result<Excess, AllocErr>,
    >)
        ensures
            step == alloc_excess_step(layout, reply),
            reply == Some(0usize) ==> step == Step::Done(
                Err::<Excess, AllocErr>(AllocErr::Exhausted { request: layout }),
            ),
            step matches Step::Done(Ok(excess)) ==> excess.0.wf() && reply == Some(excess.0.addr)
                && excess.1 == layout.size,
    {
        match reply {
            None => Step::Call(ForeignCall::Allocate { size: layout.size() }),
            Some(addr) => Step::Done(settle_excess(addr, layout)),
        }
    }

    /// Gives up the block at `ptr`: one `mem_deref` of it. What the call returned is not
    /// looked at.
    pub fn dealloc(&self, ptr: Handle, layout: Layout, reply: Option<usize>) -> (step: Step<()>)
        ensures
            step == dealloc_step(ptr, layout, reply),
    {
        match reply {
            None => Step::Call(ForeignCall::Release { data: ptr.addr() }),
            Some(_) => Step::Done(()),
        }
    }

    /// Resizes the block at `ptr` from `old_layout` to `new_layout`: one `mem_realloc` to
    /// `new_layout.size` bytes, after which the block may lie elsewhere. A change of
    /// alignment is refused before anything is called, since `mem_realloc` cannot be
    /// told of it. A null reply is the refusal of `new_layout`.
    pub fn realloc(
        &self,
        ptr: Handle,
        old_layout: Layout,
        new_layout: Layout,
        reply: Option<usize>,
    ) -> (step: Step<Result<Handle, AllocErr>>)
        ensures
            step == realloc_step(ptr, old_layout, new_layout, reply),
            old_layout.align != new_layout.align ==> step == Step::Done(
                Err::<Handle, AllocErr>(AllocErr::Unsupported { details: "cannot change align" }),
            ),
            old_layout.align == new_layout.align ==> match reply {
                None => step == Step::<Result<Handle, AllocErr>>::Call(
                    ForeignCall::Reallocate { data: ptr.addr, size: new_layout.size },
                ),
                Some(addr) => if addr == 0 {
                    step == Step::Done(
                        Err::<Handle, AllocErr>(AllocErr::Exhausted { request: new_layout }),
                    )
                } else {
                    step == Step::Done(Ok::<Handle, AllocErr>(Handle { addr }))
                },
            },
    {
        if old_layout.align() != new_layout.align() {
            return Step::Done(Err(AllocErr::Unsupported { details: "cannot change align" }));
        }
        match reply {
            None => Step::Call(
                ForeignCall::Reallocate { data: ptr.addr(), size: new_layout.size() },
            ),
            Some(addr) => Step::Done(settle(addr, new_layout)),
        }
    }

    /// Resizes the block at `ptr`, and reports how much of the new block may be used:
    /// the new size asked for, never more.
    pub fn realloc_excess(
        &self,
        ptr: Handle,
        old_layout: Layout,
        new_layout: Layout,
        reply: Option<usize>,
    ) -> (step: Step<Result<Excess, AllocErr>>)
        ensures
            step == realloc_excess_step(ptr, old_layout, new_layout, reply),
            old_layout.align != new_layout.align ==> step == Step::Done(
                Err::<Excess, AllocErr>(AllocErr::Unsupported { details: "cannot change align" }),
            ),
            step matches Step::Done(Ok(excess)) ==> excess.0.wf() && reply == Some(excess.0.addr)
                && excess.1 == new_layout.size,
    {
        if old_layout.align() != new_layout.align() {
            return Step::Done(Err(AllocErr::Unsupported { details: "cannot change align" }));
        }
        match reply {
            None => Step::Call(
                ForeignCall::Reallocate { data: ptr.addr(), size: new_layout.size() },
            ),
            Some(addr) => Step::Done(settle_excess(addr, new_layout)),
        }
    }

    /// Grows the block at `ptr` where it lies. The foreign allocator has no call for
    /// this, so the answer is always the refusal.
    pub fn grow_in_place(&self, ptr: Handle, old_layout: Layout, new_layout: Layout) -> (r: Result<
        (),
        CannotReallocInPlace,
    >)
        ensures
            r == Err::<(), CannotReallocInPlace>(CannotReallocInPlace),
    {
        self.shrink_in_place(ptr, old_layout, new_layout)
    }

    /// Shrinks the block at `ptr` where it lies. The foreign allocator has no call for
    /// this, so the answer is always the refusal.
    pub fn shrink_in_place(&self, ptr: Handle, old_layout: Layout, new_layout: Layout) -> (r:
        Result<(), CannotReallocInPlace>)
        ensures
            r == Err::<(), CannotReallocInPlace>(CannotReallocInPlace),
    {
        Err(CannotReallocInPlace)
    }

    /// Ends the process over `err`: first the foreign allocator's diagnostics are
    /// written out, then the process terminates with `err` as the reason.
    pub fn oom(&self, err: AllocErr, dumped: bool) -> (step: Step<Abort>)
        ensures
            step == oom_step(err, dumped),
            !dumped ==> step == Step::<Abort>::Call(ForeignCall::DebugDump),
            dumped ==> step == Step::Done(Abort { detail: err }),
    {
        if dumped {
            Step::Done(Abort { detail: err })
        } else {
            Step::Call(print_debug())
        }
    }
}

} // verus!
