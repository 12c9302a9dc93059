//! Memory requests: a size and an alignment.

use vstd::arithmetic::power2::is_pow2;
use vstd::prelude::*;

verus! {

/// A memory request: how many bytes, and on which boundary they start.
#[derive(Clone, Copy, Debug, PartialEq, Eq, Structural)]
pub struct Layout {
    /// The number of bytes asked for.
    pub size: usize,
    /// The alignment asked for, in bytes.
    pub align: usize,
}

/// Whether `n` is a power of two.
pub fn is_power_of_two(n: usize) -> (b: bool)
    ensures
        b == is_pow2(n as int),
{
    if n == 0 {
        proof {
            reveal(is_pow2);
        }
        return false;
    }
    let mut m: usize = n;
    while m % 2 == 0
        invariant
            m > 0,
            is_pow2(m as int) == is_pow2(n as int),
        decreases m,
    {
        proof {
            reveal(is_pow2);
        }
        m = m / 2;
    }
    proof {
        reveal(is_pow2);
    }
    m == 1
}

impl Layout {
    /// A layout is well formed when its alignment is a power of two.
    pub open spec fn wf(self) -> bool {
        is_pow2(self.align as int)
    }

    /// The layout of `size` bytes aligned to `align`, if `align` is a power of two.
    pub fn from_size_align(size: usize, align: usize) -> (r: Option<Layout>)
        ensures
            r is Some <==> is_pow2(align as int),
            r matches Some(layout) ==> layout == (Layout { size, align }) && layout.wf(),
    {
        if is_power_of_two(align) {
            Some(Layout { size, align })
        } else {
            None
        }
    }

    /// The number of bytes asked for.
    pub fn size(&self) -> (n: usize)
        ensures
            n == self.size,
    {
        self.size
    }

    /// The alignment asked for.
    pub fn align(&self) -> (a: usize)
        ensures
            a == self.align,
    {
        self.align
    }
}

} // verus!
