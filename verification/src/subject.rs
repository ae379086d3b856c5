//! Subjects and the registry that tracks which of them are alive.
//!
//! A [`SubjectRef`] is a non-owning, comparable handle to a subject: it never
//! keeps a subject alive, and resolving it against the registry may fail at
//! any time once the subject is destroyed. That failure is the lifecycle
//! signal the modifier sweeper acts on, not an error condition.

use vstd::prelude::*;

verus! {

/// An opaque generational handle to a subject.
///
/// A slot index may only ever be paired with the generation it was spawned
/// with, so a handle can never accidentally resolve to a later subject.
#[derive(Clone, Copy, Debug, PartialEq, Eq, Hash, Structural)]
pub struct SubjectRef {
    index: usize,
    generation: u64,
}

/// One arena slot of the registry.
#[derive(Clone, Copy, Debug, PartialEq, Eq, Structural)]
struct Slot {
    generation: u64,
    alive: bool,
}

/// A generational arena of subjects, tracking only their liveness.
///
/// This stands in for the external entity store: the engine asks it a single
/// question, "does this subject still exist?".
pub struct SubjectRegistry {
    slots: Vec<Slot>,
}

impl SubjectRegistry {
    /// The set of handles that currently resolve to a live subject.
    pub closed spec fn live_set(&self) -> Set<SubjectRef> {
        Set::new(
            |r: SubjectRef|
                r.index < self.slots@.len() && self.slots@[r.index as int].alive
                    && self.slots@[r.index as int].generation == r.generation,
        )
    }

    /// How many slots the registry has ever allocated, live or dead.
    pub closed spec fn slot_count(&self) -> nat {
        self.slots@.len()
    }

    /// Creates an empty registry with no subjects.
    pub fn new() -> (registry: Self)
        ensures
            registry.live_set() == Set::<SubjectRef>::empty(),
    {
        let registry = SubjectRegistry { slots: Vec::new() };
        proof {
            assert(registry.live_set() =~= Set::<SubjectRef>::empty());
        }
        registry
    }

    /// Creates a subject and returns a fresh handle to it.
    pub fn spawn(&mut self) -> (subject: SubjectRef)
        requires
            old(self).slot_count() < usize::MAX,
        ensures
            !old(self).live_set().contains(subject),
            final(self).live_set() == old(self).live_set().insert(subject),
    {
        let subject = SubjectRef { index: self.slots.len(), generation: 0 };
        self.slots.push(Slot { generation: 0, alive: true });
        proof {
            assert(self.live_set() =~= old(self).live_set().insert(subject));
        }
        subject
    }

    /// Destroys the subject the handle resolves to, if it is still alive.
    ///
    /// Handles are never resurrected: a destroyed slot stays dead forever.
    pub fn despawn(&mut self, subject: SubjectRef)
        ensures
            final(self).live_set() == old(self).live_set().remove(subject),
    {
        if subject.index < self.slots.len() {
            let slot = self.slots[subject.index];
            if slot.alive && slot.generation == subject.generation {
                self.slots.set(subject.index, Slot { generation: slot.generation, alive: false });
            }
        }
        proof {
            assert(self.live_set() =~= old(self).live_set().remove(subject));
        }
    }

    /// Reports whether the handle still resolves to a live subject.
    pub fn contains(&self, subject: SubjectRef) -> (alive: bool)
        ensures
            alive == self.live_set().contains(subject),
    {
        subject.index < self.slots.len() && self.slots[subject.index].alive
            && self.slots[subject.index].generation == subject.generation
    }
}

} // verus!
