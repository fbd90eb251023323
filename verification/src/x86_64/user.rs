//! Accesses to user memory: the flag that marks them, so that a page fault
//! during one kills the process instead of the kernel, and C strings.
use vstd::prelude::*;

verus! {

/// Whether the current core is accessing user memory.
#[derive(Clone, Copy, PartialEq, Eq, Structural, Debug, Hash)]
pub struct UserOperation {
    active: bool,
}

impl UserOperation {
    /// Whether an access to user memory is in progress.
    pub closed spec fn spec_active(self) -> bool {
        self.active
    }

    /// No access in progress.
    pub fn new() -> (r: Self)
        ensures
            !r.spec_active(),
    {
        UserOperation { active: false }
    }

    /// Marks the start of an access to user memory.
    pub fn begin(&mut self)
        ensures
            final(self).spec_active(),
    {
        self.active = true;
    }

    /// Marks the end of an access to user memory.
    pub fn end(&mut self)
        ensures
            !final(self).spec_active(),
    {
        self.active = false;
    }

    /// Returns `true` while an access to user memory is in progress.
    pub fn in_operation(&self) -> (r: bool)
        ensures
            r == self.spec_active(),
    {
        self.active
    }
}

/// The length of the C string at the start of `mem`: the position of its
/// first null byte.
pub open spec fn spec_cstr_length(mem: Seq<u8>, n: int) -> bool {
    0 <= n < mem.len() && mem[n] == 0 && forall|i: int| 0 <= i < n ==> mem[i] != 0
}

/// Returns the length of the C string at the start of `mem`, which must
/// hold a null byte.
pub fn cstr_length(mem: &[u8]) -> (r: usize)
    requires
        exists|i: int| 0 <= i < mem@.len() && mem@[i] == 0,
    ensures
        spec_cstr_length(mem@, r as int),
{
    let mut i: usize = 0;
    while i < mem.len()
        invariant
            i <= mem@.len(),
            forall|j: int| 0 <= j < i ==> mem@[j] != 0,
            exists|k: int| 0 <= k < mem@.len() && mem@[k] == 0,
        decreases mem@.len() - i,
    {
        if mem[i] == 0 {
            return i;
        }
        i = i + 1;
    }
    proof {
        let k = choose|k: int| 0 <= k < mem@.len() && mem@[k] == 0;
        assert(mem@[k] != 0);
    }
    0
}

/// Returns the C string at the start of `mem`, without its null byte.
pub fn read_cstr(mem: &[u8]) -> (r: Vec<u8>)
    requires
        exists|i: int| 0 <= i < mem@.len() && mem@[i] == 0,
    ensures
        exists|n: int| spec_cstr_length(mem@, n) && r@ == mem@.take(n),
{
    let len = cstr_length(mem);
    let mut r: Vec<u8> = Vec::new();
    let mut i: usize = 0;
    while i < len
        invariant
            i <= len,
            len < mem@.len(),
            r@ == mem@.take(i as int),
        decreases len - i,
    {
        r.push(mem[i]);
        assert(mem@.take(i + 1) =~= mem@.take(i as int).push(mem@[i as int]));
        i = i + 1;
    }
    r
}

} // verus!
