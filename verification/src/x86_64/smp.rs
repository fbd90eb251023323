//! Starting the other cores: the counts and flags by which the cores of the
//! machine wait for each other.
use vstd::prelude::*;
use super::tss::MAX_CPUS;

verus! {

/// The state shared by the cores while they start.
#[derive(Clone, Copy, PartialEq, Eq, Structural, Debug, Hash)]
pub struct SmpState {
    /// The number of cores that have started.
    pub cpu_count: u64,
    /// Whether the other cores have finished their start.
    pub ap_booted: bool,
    /// Whether the other cores may finish their start.
    pub go: bool,
}

/// Why the cores cannot be started.
#[derive(Clone, Copy, PartialEq, Eq, Structural, Debug, Hash)]
pub enum StartError {
    /// More cores than the kernel supports.
    TooManyCores,
    /// No core at all.
    NoCore,
}

impl SmpState {
    /// The state at boot: only the boot core runs.
    pub fn new() -> (r: Self)
        ensures
            r.cpu_count == 1,
            !r.ap_booted,
            !r.go,
    {
        SmpState { cpu_count: 1, ap_booted: false, go: false }
    }

    /// Returns `true` once the other cores have finished their start.
    pub fn ap_booted(&self) -> (r: bool)
        ensures
            r == self.ap_booted,
    {
        self.ap_booted
    }

    /// Lets the other cores finish their start.
    pub fn go(&mut self)
        ensures
            *final(self) == (SmpState { go: true, ..*old(self) }),
    {
        self.go = true;
    }

    /// A core other than the boot core reports that it started; it then
    /// waits until [`SmpState::go`] is called.
    pub fn ap_started(&mut self)
        requires
            old(self).cpu_count < u64::MAX,
        ensures
            *final(self) == (SmpState { cpu_count: (old(self).cpu_count + 1) as u64, ..*old(self) }),
    {
        self.cpu_count = self.cpu_count + 1;
    }

    /// The boot core, waiting for `expected` cores, checks whether they have
    /// all started; once they have, it records that the start is over.
    pub fn wait_for(&mut self, expected: u64) -> (r: bool)
        ensures
            r == (old(self).cpu_count == expected),
            r ==> *final(self) == (SmpState { ap_booted: true, ..*old(self) }),
            !r ==> *final(self) == *old(self),
    {
        if self.cpu_count == expected {
            self.ap_booted = true;
            true
        } else {
            false
        }
    }
}

/// Checks the number of cores that the bootloader found: at least one, and
/// no more than the kernel supports.
pub fn check_cores(count: usize) -> (r: Result<(), StartError>)
    ensures
        r == (if count > MAX_CPUS {
            Err(StartError::TooManyCores)
        } else if count == 0 {
            Err(StartError::NoCore)
        } else {
            Ok(())
        }),
{
    if count > MAX_CPUS {
        Err(StartError::TooManyCores)
    } else if count == 0 {
        Err(StartError::NoCore)
    } else {
        Ok(())
    }
}

/// The identifier of the current core: the one it was given, or 0 before it
/// was given one.
pub fn core_id(id: Option<u32>) -> (r: u32)
    ensures
        r == match id {
            Some(i) => i,
            None => 0,
        },
{
    match id {
        Some(i) => i,
        None => 0,
    }
}

/// The positions, in the list of the local APIC identifiers of the cores
/// that the bootloader found, of the cores to start: every core but the
/// boot core, whose identifier is 0, in the order of the list.
pub fn cores_to_start(lapic_ids: &[u32]) -> (r: Vec<usize>)
    ensures
        forall|k: int| 0 <= k < r@.len() ==> r@[k] < lapic_ids@.len() && lapic_ids@[r@[k] as int] != 0,
        forall|k: int, l: int| 0 <= k < l < r@.len() ==> r@[k] < r@[l],
        forall|i: int| 0 <= i < lapic_ids@.len() && lapic_ids@[i] != 0 ==> r@.contains(i as usize),
{
    let mut r: Vec<usize> = Vec::new();
    let mut i: usize = 0;
    while i < lapic_ids.len()
        invariant
            i <= lapic_ids@.len(),
            forall|k: int| 0 <= k < r@.len() ==> r@[k] < i && lapic_ids@[r@[k] as int] != 0,
            forall|k: int, l: int| 0 <= k < l < r@.len() ==> r@[k] < r@[l],
            forall|j: int| 0 <= j < i && lapic_ids@[j] != 0 ==> r@.contains(j as usize),
        decreases lapic_ids@.len() - i,
    {
        if lapic_ids[i] != 0 {
            let ghost before = r@;
            r.push(i);
            proof {
                assert forall|j: int| 0 <= j < i && lapic_ids@[j] != 0 implies r@.contains(j as usize) by {
                    let k = choose|k: int| 0 <= k < before.len() && before[k] == j as usize;
                    assert(r@[k] == j as usize);
                }
                assert(r@[before.len() as int] == i);
            }
        }
        i = i + 1;
    }
    r
}

} // verus!
