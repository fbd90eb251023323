//! File descriptors and the table of the files a process has open.
use vstd::prelude::*;

verus! {

/// The number of slots of a table of open files.
pub const MAX_OPEN_FILES: usize = 32;

/// A file descriptor: the index of an open file in the table of its
/// process.
#[derive(Clone, Copy, PartialEq, Eq, Structural, Debug, Hash)]
pub struct Descriptor(pub usize);

impl Descriptor {
    /// The raw value that designates the current working directory, in the
    /// calls that take a directory descriptor.
    pub const AT_FDCWD: usize = usize::MAX;

    /// The descriptor that designates the current working directory.
    pub fn at_fdcwd() -> (r: Self)
        ensures
            r.0 == usize::MAX,
    {
        Descriptor(Self::AT_FDCWD)
    }

    /// The descriptor with the given number, or `None` for the number that
    /// designates the current working directory.
    pub fn new(fd: usize) -> (r: Option<Self>)
        ensures
            r == (if fd == usize::MAX {
                None
            } else {
                Some(Descriptor(fd))
            }),
    {
        if fd == Self::AT_FDCWD {
            None
        } else {
            Some(Descriptor(fd))
        }
    }
}

/// The table of the files a process has open: the descriptor of a file is
/// its slot in the table.
#[derive(Debug)]
pub struct OpenedFiles<F> {
    files: Vec<Option<F>>,
}

impl<F> View for OpenedFiles<F> {
    type V = Seq<Option<F>>;

    /// The slots of the table.
    closed spec fn view(&self) -> Seq<Option<F>> {
        self.files@
    }
}

/// The slot that `insert` fills in the table `t`: the first free one.
pub open spec fn first_free<F>(t: Seq<Option<F>>) -> Option<int> {
    if exists|k: int| 0 <= k < t.len() && t[k] is None {
        Some(choose|k: int| 0 <= k < t.len() && t[k] is None && forall|j: int| 0 <= j < k ==> t[j] is Some)
    } else {
        None
    }
}

impl<F> OpenedFiles<F> {
    /// The table has its fixed number of slots.
    pub open spec fn wf(self) -> bool {
        self@.len() == MAX_OPEN_FILES
    }

    /// Creates a table without any open file.
    pub fn empty() -> (r: Self)
        ensures
            r.wf(),
            forall|k: int| 0 <= k < r@.len() ==> r@[k] is None,
    {
        let mut files: Vec<Option<F>> = Vec::new();
        let mut i: usize = 0;
        while i < MAX_OPEN_FILES
            invariant
                i <= MAX_OPEN_FILES,
                files@.len() == i,
                forall|k: int| 0 <= k < files@.len() ==> files@[k] is None,
            decreases MAX_OPEN_FILES - i,
        {
            files.push(None);
            i = i + 1;
        }
        OpenedFiles { files }
    }

    /// Puts the file in the first free slot and returns its descriptor, or
    /// `None` if every slot is taken.
    pub fn insert(&mut self, file: F) -> (r: Option<Descriptor>)
        requires
            old(self).wf(),
        ensures
            final(self).wf(),
            match first_free(old(self)@) {
                Some(k) => r == Some(Descriptor(k as usize)) && final(self)@ == old(self)@.update(k, Some(file)),
                None => r is None && final(self)@ == old(self)@,
            },
    {
        let mut i: usize = 0;
        while i < self.files.len()
            invariant
                self.files@ == old(self)@,
                self.wf(),
                i <= self.files@.len(),
                forall|j: int| 0 <= j < i ==> self.files@[j] is Some,
            decreases self.files@.len() - i,
        {
            if self.files[i].is_none() {
                proof {
                    lemma_first_free(old(self)@, i as int);
                }
                self.files.set(i, Some(file));
                return Some(Descriptor(i));
            }
            i = i + 1;
        }
        proof {
            if exists|k: int| 0 <= k < old(self)@.len() && old(self)@[k] is None {
                let k = choose|k: int| 0 <= k < old(self)@.len() && old(self)@[k] is None;
                assert(self.files@[k] is Some);
            }
        }
        None
    }

    /// Takes the file out of the slot of the descriptor and returns it;
    /// returns `None` for a free slot or a descriptor past the table.
    pub fn remove(&mut self, fd: Descriptor) -> (r: Option<F>)
        requires
            old(self).wf(),
        ensures
            final(self).wf(),
            fd.0 < MAX_OPEN_FILES ==> r == old(self)@[fd.0 as int] && final(self)@ == old(self)@.update(
                fd.0 as int,
                None,
            ),
            fd.0 >= MAX_OPEN_FILES ==> r is None && final(self)@ == old(self)@,
    {
        if fd.0 >= self.files.len() {
            return None;
        }
        self.files.push(None);
        let r = self.files.swap_remove(fd.0);
        assert(self.files@ =~= old(self)@.update(fd.0 as int, None));
        r
    }

    /// Returns the file in the slot of the descriptor; `None` for a free
    /// slot or a descriptor past the table.
    pub fn get(&self, fd: Descriptor) -> (r: Option<&F>)
        requires
            self.wf(),
        ensures
            match r {
                Some(f) => fd.0 < MAX_OPEN_FILES && self@[fd.0 as int] == Some(*f),
                None => fd.0 >= MAX_OPEN_FILES || self@[fd.0 as int] is None,
            },
    {
        if fd.0 >= self.files.len() {
            return None;
        }
        self.files[fd.0].as_ref()
    }
}

/// The first free slot is free and every slot before it is taken.
proof fn lemma_first_free<F>(t: Seq<Option<F>>, k: int)
    requires
        0 <= k < t.len(),
        t[k] is None,
        forall|j: int| 0 <= j < k ==> t[j] is Some,
    ensures
        first_free(t) == Some(k),
{
    let k2 = choose|k2: int| 0 <= k2 < t.len() && t[k2] is None && forall|j: int| 0 <= j < k2 ==> t[j] is Some;
    assert(0 <= k < t.len() && t[k] is None && forall|j: int| 0 <= j < k ==> t[j] is Some);
    if k2 < k {
        assert(t[k2] is Some);
    }
    if k < k2 {
        assert(t[k] is Some);
    }
}

/// A file put into a table is found there by the descriptor it was given.
pub proof fn law_get_after_insert<F>(t: Seq<Option<F>>, file: F)
    requires
        t.len() == MAX_OPEN_FILES,
        first_free(t) is Some,
    ensures
        ({
            let k = first_free(t)->0;
            0 <= k < MAX_OPEN_FILES && t.update(k, Some(file))[k] == Some(file)
        }),
{
    let w = choose|w: int| 0 <= w < t.len() && t[w] is None;
    lemma_exists_first_free(t, w);
}

/// A table with a free slot has a first free slot.
proof fn lemma_exists_first_free<F>(t: Seq<Option<F>>, w: int)
    requires
        0 <= w < t.len(),
        t[w] is None,
    ensures
        exists|k: int| 0 <= k < t.len() && t[k] is None && forall|j: int| 0 <= j < k ==> t[j] is Some,
    decreases w,
{
    if exists|j: int| 0 <= j < w && t[j] is None {
        let j = choose|j: int| 0 <= j < w && t[j] is None;
        lemma_exists_first_free(t, j);
    } else {
        assert(0 <= w < t.len() && t[w] is None && forall|j: int| 0 <= j < w ==> t[j] is Some);
    }
}

/// Removing the file that was just put into a table gives the file back
/// and leaves the table as it was.
pub proof fn law_remove_undoes_insert<F>(t: Seq<Option<F>>, file: F)
    requires
        t.len() == MAX_OPEN_FILES,
        first_free(t) is Some,
    ensures
        ({
            let k = first_free(t)->0;
            let u = t.update(k, Some(file));
            u[k] == Some(file) && u.update(k, None) == t
        }),
{
    let w = choose|w: int| 0 <= w < t.len() && t[w] is None;
    lemma_exists_first_free(t, w);
    let k = first_free(t)->0;
    assert(t.update(k, Some(file)).update(k, None) =~= t);
}

/// Once a file is taken out of a table, its slot is free.
pub proof fn law_get_after_remove<F>(t: Seq<Option<F>>, k: int)
    requires
        t.len() == MAX_OPEN_FILES,
        0 <= k < MAX_OPEN_FILES,
    ensures
        t.update(k, None)[k] is None,
{
}

/// Inserts fill a table in order: in a table whose first `n` slots are
/// taken and the others free, the next insert takes slot `n` and leaves the
/// first `n + 1` slots taken and the others free; with every slot taken, an
/// insert finds none. So from an empty table the inserts are given the
/// descriptors 0 to 31 in turn, and the next insert fails.
pub proof fn law_inserts_fill_in_order<F>(t: Seq<Option<F>>, n: int, file: F)
    requires
        t.len() == MAX_OPEN_FILES,
        0 <= n <= MAX_OPEN_FILES,
        forall|k: int| 0 <= k < n ==> #[trigger] t[k] is Some,
        forall|k: int| n <= k < MAX_OPEN_FILES ==> #[trigger] t[k] is None,
    ensures
        n < MAX_OPEN_FILES ==> first_free(t) == Some(n) && ({
            let u = t.update(n, Some(file));
            &&& forall|k: int| 0 <= k < n + 1 ==> #[trigger] u[k] is Some
            &&& forall|k: int| n + 1 <= k < MAX_OPEN_FILES ==> #[trigger] u[k] is None
        }),
        n == MAX_OPEN_FILES ==> first_free(t) is None,
{
    if n < MAX_OPEN_FILES {
        lemma_first_free(t, n);
    } else {
        if exists|k: int| 0 <= k < t.len() && t[k] is None {
            let k = choose|k: int| 0 <= k < t.len() && t[k] is None;
            assert(t[k] is Some);
        }
    }
}

} // verus!
