//! What holds across the adapter's operations.

use crate::error::AllocErr;
use crate::foreign::{ForeignCall, Handle, Step};
use crate::layout::Layout;
use crate::model::{
    alloc_excess_step, alloc_step, alloc_zeroed_step, dealloc_step, oom_step,
    realloc_excess_step, realloc_step,
};
use vstd::prelude::*;

verus! {

/// Allocating a block and releasing it at once costs the foreign allocator one
/// `mem_alloc` of the size asked for and one `mem_deref` of the very address that the
/// `mem_alloc` returned. Neither operation asks for anything more, and neither ends
/// the process: each is over as soon as its one call has returned.
pub proof fn release_pairs_with_allocation(layout: Layout, addr: usize, released: usize)
    requires
        layout.wf(),
        addr != 0,
    ensures
        alloc_step(layout, None) == Step::<Result<Handle, AllocErr>>::Call(
            ForeignCall::Allocate { size: layout.size },
        ),
        alloc_step(layout, Some(addr)) == Step::Done(Ok::<Handle, AllocErr>(Handle { addr })),
        dealloc_step(Handle { addr }, layout, None) == Step::<()>::Call(
            ForeignCall::Release { data: addr },
        ),
        dealloc_step(Handle { addr }, layout, Some(released)) == Step::Done(()),
{
}

/// No operation asks for a second foreign call, whatever the first one returned: there
/// is no retry.
pub proof fn no_second_call(
    ptr: Handle,
    old_layout: Layout,
    new_layout: Layout,
    err: AllocErr,
    reply: usize,
)
    ensures
        alloc_step(new_layout, Some(reply)) is Done,
        alloc_zeroed_step(new_layout, Some(reply)) is Done,
        alloc_excess_step(new_layout, Some(reply)) is Done,
        dealloc_step(ptr, old_layout, Some(reply)) is Done,
        realloc_step(ptr, old_layout, new_layout, Some(reply)) is Done,
        realloc_excess_step(ptr, old_layout, new_layout, Some(reply)) is Done,
        oom_step(err, true) is Done,
{
}

} // verus!
