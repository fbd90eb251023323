//! Per-core variables: each core has its own copy of the per-core section,
//! which its `GS` base points to.
use vstd::prelude::*;

verus! {

/// A per-core variable.
#[derive(Debug)]
pub struct PerCpu<T> {
    inner: T,
}

impl<T> PerCpu<T> {
    /// The value of the variable.
    pub closed spec fn spec_inner(self) -> T {
        self.inner
    }

    /// Creates a per-core variable with the given initial value.
    pub fn new(inner: T) -> (r: Self)
        ensures
            r.spec_inner() == inner,
    {
        PerCpu { inner }
    }
}

/// A shared borrow of the copy of a per-core variable of the current core.
/// Preemption stays disabled while it lives.
pub struct PerCpuGuard<'a, T> {
    inner: &'a T,
}

impl<'a, T> PerCpuGuard<'a, T> {
    /// Wraps a borrow of the copy of the current core.
    pub fn new(inner: &'a T) -> (r: Self)
        ensures
            *r.get() == *inner,
    {
        PerCpuGuard { inner }
    }

    /// The borrowed value.
    pub open spec fn get(&self) -> &'a T {
        self.spec_inner()
    }

    /// The borrowed value.
    pub closed spec fn spec_inner(&self) -> &'a T {
        self.inner
    }

    /// Returns the borrowed value.
    pub fn value(&self) -> (r: &T)
        ensures
            *r == *self.get(),
    {
        self.inner
    }
}

/// A mutable borrow of the copy of a per-core variable of the current core.
/// Preemption stays disabled while it lives.
pub struct PerCpuGuardMut<'a, T> {
    inner: &'a mut T,
}

impl<'a, T> PerCpuGuardMut<'a, T> {
    /// The borrowed value, as it is now.
    pub closed spec fn spec_value(&self) -> T {
        *self.inner
    }

    /// Wraps a mutable borrow of the copy of the current core.
    pub fn new(inner: &'a mut T) -> (r: Self)
        ensures
            r.spec_value() == *old(inner),
    {
        PerCpuGuardMut { inner }
    }

    /// Returns the borrowed value.
    pub fn value(&self) -> (r: &T)
        ensures
            *r == self.spec_value(),
    {
        &*self.inner
    }
}

/// The address of the copy of the current core of the per-core variable at
/// `ptr` in the per-core section `start..end`: its offset in the section,
/// from the copy of the core, at `gs_base`.
pub fn per_cpu_address(ptr: u64, start: u64, end: u64, gs_base: u64) -> (r: u64)
    requires
        start <= ptr < end,
        gs_base != 0,
        gs_base + (ptr - start) <= u64::MAX,
    ensures
        r == gs_base + (ptr - start),
{
    gs_base + (ptr - start)
}

} // verus!
