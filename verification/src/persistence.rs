//! When settings changes are written back: a burst of changes is written once, after it has
//! been quiet for a moment.

use vstd::prelude::*;

verus! {

/// How long settings must stay unchanged before they are written, in milliseconds.
pub const PERSISTENCE_DEBOUNCE_MILLIS: u64 = 250;

/// What to do when a debounce timer fires.
#[derive(Debug, Clone, Copy, PartialEq, Eq, Structural)]
pub enum PersistDecision {
    /// Settings changed since the timer was armed: arm it again for this generation.
    Rearm(u64),
    /// Settings have been quiet since the timer was armed: write them now.
    Write,
}

/// The debounce of settings writes: the generation of the latest change, and whether a timer
/// is armed.
#[derive(Debug, Clone, Copy, PartialEq, Eq, Structural)]
pub struct PersistenceDebounce {
    /// Counts settings changes, saturating at `u64::MAX`.
    pub generation: u64,
    /// Whether a debounce timer is armed.
    pub scheduled: bool,
}

/// The generation after one more change.
pub open spec fn next_generation(generation: u64) -> u64 {
    if generation < u64::MAX {
        (generation + 1) as u64
    } else {
        generation
    }
}

/// A settings change: the debounce afterwards, and the generation to arm a timer with when
/// none was armed.
pub open spec fn spec_request(debounce: PersistenceDebounce) -> (PersistenceDebounce, Option<u64>) {
    let generation = next_generation(debounce.generation);
    (
        PersistenceDebounce { generation, scheduled: true },
        if debounce.scheduled {
            None
        } else {
            Some(generation)
        },
    )
}

/// A timer armed for `generation` fires: the debounce afterwards, and what to do.
pub open spec fn spec_ready(debounce: PersistenceDebounce, generation: u64) -> (
    PersistenceDebounce,
    PersistDecision,
) {
    if generation != debounce.generation {
        (debounce, PersistDecision::Rearm(debounce.generation))
    } else {
        (PersistenceDebounce { scheduled: false, ..debounce }, PersistDecision::Write)
    }
}

/// The debounce after `changes` more settings changes.
pub open spec fn after_changes(debounce: PersistenceDebounce, changes: nat) -> PersistenceDebounce
    decreases changes,
{
    if changes == 0 {
        debounce
    } else {
        after_changes(spec_request(debounce).0, (changes - 1) as nat)
    }
}

impl PersistenceDebounce {
    /// No change seen, no timer armed.
    pub fn new() -> (debounce: PersistenceDebounce)
        ensures
            debounce == (PersistenceDebounce { generation: 0, scheduled: false }),
    {
        PersistenceDebounce { generation: 0, scheduled: false }
    }

    /// Records a settings change. Returns the generation to arm a timer with, or `None` when a
    /// timer is already armed: a burst of changes arms one timer.
    pub fn request(&mut self) -> (arm: Option<u64>)
        ensures
            (*final(self), arm) == spec_request(*old(self)),
    {
        self.generation = self.generation.saturating_add(1);
        if self.scheduled {
            None
        } else {
            self.scheduled = true;
            Some(self.generation)
        }
    }

    /// A timer armed for `generation` has fired. Settings are written only when no change came
    /// after the timer was armed; otherwise the timer is armed again for the latest change.
    pub fn ready(&mut self, generation: u64) -> (decision: PersistDecision)
        ensures
            (*final(self), decision) == spec_ready(*old(self), generation),
    {
        if generation != self.generation {
            PersistDecision::Rearm(self.generation)
        } else {
            self.scheduled = false;
            PersistDecision::Write
        }
    }
}

/// Whether settings reach the disk: only for a writable profile that has a settings path.
pub fn should_write_settings(writable: bool, has_settings_path: bool) -> (write: bool)
    ensures
        write == (writable && has_settings_path),
{
    writable && has_settings_path
}

/// Changes made while a timer is armed arm no other timer, and each moves the generation on.
pub proof fn lemma_armed_changes(debounce: PersistenceDebounce, changes: nat)
    requires
        debounce.scheduled,
        debounce.generation + changes <= u64::MAX,
    ensures
        after_changes(debounce, changes) == (PersistenceDebounce {
            generation: (debounce.generation + changes) as u64,
            scheduled: true,
        }),
        forall|k: nat| k < changes ==> (#[trigger] spec_request(after_changes(debounce, k))).1 is None,
    decreases changes,
{
    if changes > 0 {
        let next = spec_request(debounce).0;
        lemma_armed_changes(next, (changes - 1) as nat);
        assert forall|k: nat| k < changes implies (#[trigger] spec_request(
            after_changes(debounce, k),
        )).1 is None by {
            if k > 0 {
                assert(after_changes(debounce, k) == after_changes(next, (k - 1) as nat));
            }
        }
    }
}

/// A burst of settings changes is written once, after it has gone quiet: the first change
/// arms the one timer of the burst, the later changes arm none, the timer then re-arms for the
/// latest change, and that timer writes the settings and disarms.
pub proof fn lemma_burst_is_written_once(start: PersistenceDebounce, later_changes: nat)
    requires
        !start.scheduled,
        start.generation + later_changes + 1 <= u64::MAX,
    ensures
        ({
            let (armed, arm) = spec_request(start);
            let end = after_changes(armed, later_changes);
            &&& arm == Some(armed.generation)
            &&& forall|k: nat|
                k < later_changes ==> (#[trigger] spec_request(after_changes(armed, k))).1 is None
            &&& end.generation == start.generation + 1 + later_changes
            &&& later_changes > 0 ==> spec_ready(end, armed.generation) == (
                end,
                PersistDecision::Rearm(end.generation),
            )
            &&& spec_ready(end, end.generation) == (
                PersistenceDebounce { generation: end.generation, scheduled: false },
                PersistDecision::Write,
            )
        }),
{
    let armed = spec_request(start).0;
    lemma_armed_changes(armed, later_changes);
}

} // verus!
