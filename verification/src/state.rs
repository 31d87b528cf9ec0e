//! The shared simulation-state context callbacks and stage updates work
//! against, with the deferred-mutation queue a callback schedules work on.
use vstd::prelude::*;

verus! {

/// One mutation a callback schedules for application after its own
/// execution.
#[derive(Clone, Copy, PartialEq, Eq, Structural, Debug)]
pub enum DeferredMutation {
    /// Overwrite a slot; a mutation aimed at a slot that does not exist is
    /// dropped.
    SetSlot { slot: usize, value: i64 },
    /// Add to a slot, saturating at the bounds of the slot's range.
    AddSlot { slot: usize, delta: i64 },
}

/// `a + b` clamped to the `i64` range.
pub open spec fn saturating_add_spec(a: int, b: int) -> int {
    if a + b > i64::MAX {
        i64::MAX as int
    } else if a + b < i64::MIN {
        i64::MIN as int
    } else {
        a + b
    }
}

/// Runtime saturating addition matching `saturating_add_spec`.
pub fn saturating_add(a: i64, b: i64) -> (r: i64)
    ensures
        r == saturating_add_spec(a as int, b as int),
{
    if b >= 0 {
        if a > i64::MAX - b {
            i64::MAX
        } else {
            a + b
        }
    } else {
        if a < i64::MIN - b {
            i64::MIN
        } else {
            a + b
        }
    }
}

/// What one deferred mutation does to the slots.
pub open spec fn apply_one(slots: Seq<i64>, m: DeferredMutation) -> Seq<i64> {
    match m {
        DeferredMutation::SetSlot { slot, value } => if slot < slots.len() {
            slots.update(slot as int, value)
        } else {
            slots
        },
        DeferredMutation::AddSlot { slot, delta } => if slot < slots.len() {
            slots.update(
                slot as int,
                saturating_add_spec(slots[slot as int] as int, delta as int) as i64,
            )
        } else {
            slots
        },
    }
}

/// What a whole queue of deferred mutations does to the slots, applied in
/// the order they were scheduled.
pub open spec fn apply_all(slots: Seq<i64>, ms: Seq<DeferredMutation>) -> Seq<i64>
    decreases ms.len(),
{
    if ms.len() == 0 {
        slots
    } else {
        apply_one(apply_all(slots, ms.drop_last()), ms.last())
    }
}

/// The external store's face toward this core: numbered slots of plain
/// values, and the queue of mutations scheduled during an invocation.
pub struct SimulationState {
    pub slots: Vec<i64>,
    pub deferred: Vec<DeferredMutation>,
}

impl SimulationState {
    /// A state with `count` slots, all zero, and nothing scheduled.
    pub fn new(count: usize) -> (s: SimulationState)
        ensures
            s.slots@.len() == count,
            forall|i: int| 0 <= i < count ==> s.slots@[i] == 0i64,
            s.deferred@.len() == 0,
    {
        let mut slots: Vec<i64> = Vec::new();
        let mut i: usize = 0;
        while i < count
            invariant
                i <= count,
                slots@.len() == i,
                forall|k: int| 0 <= k < i ==> slots@[k] == 0i64,
            decreases count - i,
        {
            slots.push(0);
            i += 1;
        }
        SimulationState { slots, deferred: Vec::new() }
    }

    /// Reads a slot; `None` exactly when the slot does not exist.
    pub fn read_slot(&self, slot: usize) -> (r: Option<i64>)
        ensures
            r is Some <==> slot < self.slots@.len(),
            r matches Some(v) ==> v == self.slots@[slot as int],
    {
        if slot < self.slots.len() {
            Some(self.slots[slot])
        } else {
            None
        }
    }

    /// Overwrites a slot at once; a write aimed at a slot that does not
    /// exist is dropped.
    pub fn write_slot(&mut self, slot: usize, value: i64)
        ensures
            final(self).slots@ == (if slot < old(self).slots@.len() {
                old(self).slots@.update(slot as int, value)
            } else {
                old(self).slots@
            }),
            final(self).deferred@ == old(self).deferred@,
    {
        if slot < self.slots.len() {
            self.slots.set(slot, value);
        }
    }

    /// Schedules a mutation for the end of the current invocation.
    pub fn defer(&mut self, m: DeferredMutation)
        ensures
            final(self).slots@ == old(self).slots@,
            final(self).deferred@ == old(self).deferred@.push(m),
    {
        self.deferred.push(m);
    }

    /// Applies every scheduled mutation in order and empties the queue.
    pub fn apply_deferred(&mut self)
        ensures
            final(self).slots@ == apply_all(old(self).slots@, old(self).deferred@),
            final(self).deferred@.len() == 0,
    {
        let n = self.deferred.len();
        let mut i: usize = 0;
        while i < n
            invariant
                i <= n,
                self.deferred@ == old(self).deferred@,
                self.slots@ == apply_all(old(self).slots@, old(self).deferred@.subrange(0, i as int)),
            decreases n - i,
        {
            let ghost done = old(self).deferred@.subrange(0, i as int);
            let m = self.deferred[i];
            match m {
                DeferredMutation::SetSlot { slot, value } => {
                    if slot < self.slots.len() {
                        self.slots.set(slot, value);
                    }
                },
                DeferredMutation::AddSlot { slot, delta } => {
                    if slot < self.slots.len() {
                        let v = saturating_add(self.slots[slot], delta);
                        self.slots.set(slot, v);
                    }
                },
            }
            proof {
                let next = old(self).deferred@.subrange(0, i + 1);
                assert(next.drop_last() =~= done);
                assert(next.last() == m);
            }
            i += 1;
        }
        proof {
            assert(old(self).deferred@.subrange(0, n as int) =~= old(self).deferred@);
        }
        self.deferred.clear();
    }
}

} // verus!
