//! Runtime-registered, type-erased behavior: a registry of callable entries
//! keyed by opaque ids, invoked with a checkout discipline that rejects
//! reentry instead of blocking or corrupting shared state.
use vstd::prelude::*;

use crate::orchestrator::{FrameOrchestrator, Stage};
use crate::state::SimulationState;

verus! {

/// Opaque id a callable is registered under.
#[derive(Clone, Copy, PartialEq, Eq, Structural, Debug)]
pub struct MySystemId(pub usize);

/// A unit of behavior registered at runtime: prepared once on first
/// invocation, then run with a numeric argument against the shared
/// simulation state. Mutations it wants applied after its own execution go
/// through the state's deferred queue.
pub trait Callable: Sized {
    /// One-time preparation, run on first invocation only.
    fn prepare(&mut self, state: &mut SimulationState);

    /// The registered behavior itself.
    fn call(&mut self, state: &mut SimulationState, arg: i64);
}

/// Unknown id, or an id whose execution is still active (checked out).
#[derive(Clone, Copy, PartialEq, Eq, Structural, Debug)]
pub enum RegistryError {
    UnknownId,
}

/// One registered callable with its one-shot "prepared" flag.
pub struct CallableEntry<C> {
    pub initialized: bool,
    pub callable: C,
}

/// Owns every callable entry, except during the entry's own execution
/// window: `invoke` checks the entry out for the duration, so a reentrant
/// invocation through the same id finds nothing and is rejected.
pub struct DynamicCallbackRegistry<C> {
    entries: Vec<Option<CallableEntry<C>>>,
}

impl<C> DynamicCallbackRegistry<C> {
    /// The slots as a sequence: a slot holds `None` exactly while its entry
    /// is checked out.
    pub closed spec fn slots(self) -> Seq<Option<CallableEntry<C>>> {
        self.entries@
    }

    /// An id this registry has handed out.
    pub open spec fn is_registered(self, id: MySystemId) -> bool {
        id.0 < self.slots().len()
    }

    /// A registered id whose entry is present (not checked out).
    pub open spec fn is_present(self, id: MySystemId) -> bool {
        self.is_registered(id) && self.slots()[id.0 as int] is Some
    }

    /// An empty registry.
    pub fn new() -> (r: DynamicCallbackRegistry<C>)
        ensures
            r.slots().len() == 0,
    {
        DynamicCallbackRegistry { entries: Vec::new() }
    }

    /// How many ids have been handed out. Entries are never destroyed, so
    /// this only grows.
    pub fn len(&self) -> (n: usize)
        ensures
            n == self.slots().len(),
    {
        self.entries.len()
    }

    /// Runtime test for `is_present`.
    pub fn present(&self, id: MySystemId) -> (r: bool)
        ensures
            r == self.is_present(id),
    {
        id.0 < self.entries.len() && self.entries[id.0].is_some()
    }

    /// Stores `callable` under a fresh id without invoking it.
    pub fn register(&mut self, callable: C) -> (id: MySystemId)
        ensures
            id.0 == old(self).slots().len(),
            final(self).slots() == old(self).slots().push(
                Some(CallableEntry { initialized: false, callable }),
            ),
            final(self).is_present(id),
    {
        let id = MySystemId(self.entries.len());
        self.entries.push(Some(CallableEntry { initialized: false, callable }));
        id
    }

    /// Takes an entry out of the registry for the duration of its
    /// execution. Fails exactly on an id that was never registered or is
    /// already checked out, leaving everything untouched.
    pub fn checkout(&mut self, id: MySystemId) -> (r: Result<CallableEntry<C>, RegistryError>)
        ensures
            r is Ok <==> old(self).is_present(id),
            r matches Err(e) ==> e == RegistryError::UnknownId && final(self).slots() == old(
                self,
            ).slots(),
            r matches Ok(entry) ==> {
                &&& Some(entry) == old(self).slots()[id.0 as int]
                &&& final(self).slots() == old(self).slots().update(id.0 as int, None)
            },
    {
        if id.0 >= self.entries.len() {
            return Err(RegistryError::UnknownId);
        }
        let taken = self.entries.remove(id.0);
        self.entries.insert(id.0, None);
        proof {
            assert(self.entries@ =~= old(self).entries@.update(id.0 as int, None));
        }
        match taken {
            Some(entry) => Ok(entry),
            None => {
                proof {
                    assert(self.entries@ =~= old(self).entries@);
                }
                Err(RegistryError::UnknownId)
            },
        }
    }

    /// Returns a checked-out entry to its slot.
    pub fn reinsert(&mut self, id: MySystemId, entry: CallableEntry<C>)
        requires
            old(self).is_registered(id),
            old(self).slots()[id.0 as int] is None,
        ensures
            final(self).slots() == old(self).slots().update(id.0 as int, Some(entry)),
            final(self).is_present(id),
    {
        let _ = self.entries.remove(id.0);
        self.entries.insert(id.0, Some(entry));
        proof {
            assert(self.entries@ =~= old(self).entries@.update(id.0 as int, Some(entry)));
        }
    }
}

impl<C: Callable> DynamicCallbackRegistry<C> {
    /// Checks the entry out, prepares it on first invocation, runs it with
    /// `arg` against `state`, applies the mutations it scheduled, and puts
    /// it back.
    ///
    /// Fails exactly on an id that was never registered or whose own
    /// execution is still active; then nothing is mutated: neither the
    /// registry nor the state.
    pub fn invoke(&mut self, state: &mut SimulationState, id: MySystemId, arg: i64) -> (r: Result<
        (),
        RegistryError,
    >)
        ensures
            r is Ok <==> old(self).is_present(id),
            r matches Err(e) ==> e == RegistryError::UnknownId && final(self).slots() == old(
                self,
            ).slots() && *final(state) == *old(state),
            r is Ok ==> {
                &&& final(self).slots().len() == old(self).slots().len()
                &&& final(self).is_present(id)
                &&& (final(self).slots()[id.0 as int] matches Some(entry) && entry.initialized)
                &&& forall|j: int|
                    0 <= j < old(self).slots().len() && j != id.0 ==> final(self).slots()[j] == old(
                        self,
                    ).slots()[j]
                &&& final(state).deferred@.len() == 0
            },
    {
        let mut entry = match self.checkout(id) {
            Ok(e) => e,
            Err(e) => {
                return Err(e);
            },
        };
        if !entry.initialized {
            entry.callable.prepare(state);
            entry.initialized = true;
        }
        entry.callable.call(state, arg);
        state.apply_deferred();
        self.reinsert(id, entry);
        Ok(())
    }
}

/// A key event forwarded from the windowing source.
#[derive(Clone, Copy, PartialEq, Eq, Structural, Debug)]
pub struct KeyPressed(pub u32);

/// Binds an entity to the callable to invoke when a key is pressed; `None`
/// leaves the entity deaf to key events.
#[derive(Clone, Copy, PartialEq, Eq, Structural, Debug)]
pub struct OnKeyPress(pub Option<MySystemId>);

/// The ids bound through a list of key bindings, in binding order.
pub open spec fn bound_ids(bindings: Seq<OnKeyPress>) -> Seq<MySystemId>
    decreases bindings.len(),
{
    if bindings.len() == 0 {
        Seq::empty()
    } else {
        bound_ids(bindings.drop_last()) + (match bindings.last().0 {
            Some(id) => seq![id],
            None => Seq::empty(),
        })
    }
}

/// The invocations a set of key events owes: for each event in order, every
/// bound id in binding order.
pub open spec fn dispatch_plan(keys: Seq<KeyPressed>, bindings: Seq<OnKeyPress>) -> Seq<MySystemId>
    decreases keys.len(),
{
    if keys.len() == 0 {
        Seq::empty()
    } else {
        dispatch_plan(keys.drop_last(), bindings) + bound_ids(bindings)
    }
}

/// Dispatches the queued key events: for each event, in order, every bound
/// callable is invoked once with the key code as argument.
///
/// Returns the attempted invocations in order, each with whether it
/// succeeded. With no key events queued, nothing at all is touched.
pub fn run_systems<C: Callable>(
    registry: &mut DynamicCallbackRegistry<C>,
    state: &mut SimulationState,
    keys: &Vec<KeyPressed>,
    bindings: &Vec<OnKeyPress>,
) -> (attempts: Vec<(MySystemId, bool)>)
    ensures
        attempts@.map_values(|a: (MySystemId, bool)| a.0) == dispatch_plan(keys@, bindings@),
        final(registry).slots().len() == old(registry).slots().len(),
        keys@.len() == 0 ==> final(registry).slots() == old(registry).slots() && *final(state)
            == *old(state),
{
    let mut attempts: Vec<(MySystemId, bool)> = Vec::new();
    if keys.len() == 0 {
        proof {
            assert(attempts@.map_values(|a: (MySystemId, bool)| a.0) =~= dispatch_plan(
                keys@,
                bindings@,
            ));
        }
        return attempts;
    }
    let mut ki: usize = 0;
    while ki < keys.len()
        invariant
            ki <= keys@.len(),
            attempts@.map_values(|a: (MySystemId, bool)| a.0) == dispatch_plan(
                keys@.subrange(0, ki as int),
                bindings@,
            ),
            registry.slots().len() == old(registry).slots().len(),
        decreases keys@.len() - ki,
    {
        let key = keys[ki];
        let mut bi: usize = 0;
        while bi < bindings.len()
            invariant
                bi <= bindings@.len(),
                attempts@.map_values(|a: (MySystemId, bool)| a.0) == dispatch_plan(
                    keys@.subrange(0, ki as int),
                    bindings@,
                ) + bound_ids(bindings@.subrange(0, bi as int)),
                registry.slots().len() == old(registry).slots().len(),
                ki < keys@.len(),
                key == keys@[ki as int],
            decreases bindings@.len() - bi,
        {
            let ghost done = bindings@.subrange(0, bi as int);
            let ghost next = bindings@.subrange(0, bi + 1);
            let ghost plan_done = dispatch_plan(keys@.subrange(0, ki as int), bindings@);
            proof {
                assert(next.drop_last() =~= done);
                assert(next.last() == bindings@[bi as int]);
            }
            match bindings[bi].0 {
                Some(id) => {
                    let ghost prev = attempts@;
                    let ok = registry.invoke(state, id, key.0 as i64).is_ok();
                    attempts.push((id, ok));
                    proof {
                        assert(bound_ids(next) =~= bound_ids(done).push(id));
                        assert(attempts@.map_values(|a: (MySystemId, bool)| a.0) =~= prev.map_values(
                            |a: (MySystemId, bool)| a.0,
                        ).push(id));
                        assert(attempts@.map_values(|a: (MySystemId, bool)| a.0) =~= plan_done
                            + bound_ids(next));
                    }
                },
                None => {
                    proof {
                        assert(bound_ids(next) =~= bound_ids(done));
                    }
                },
            }
            bi += 1;
        }
        proof {
            assert(bindings@.subrange(0, bindings@.len() as int) =~= bindings@);
            let next_keys = keys@.subrange(0, ki + 1);
            assert(next_keys.drop_last() =~= keys@.subrange(0, ki as int));
        }
        ki += 1;
    }
    proof {
        assert(keys@.subrange(0, keys@.len() as int) =~= keys@);
    }
    attempts
}

/// Installs the post-frame dispatch step on an orchestrator: with the hook
/// in place, the key events queued during a frame are handed out after it,
/// to be dispatched through `run_systems`.
pub struct SystemRunnerPlugin;

impl SystemRunnerPlugin {
    /// Enables the post-frame dispatch; everything else is left untouched.
    pub fn build<S: Stage>(&self, orchestrator: &mut FrameOrchestrator<S>)
        requires
            old(orchestrator).wf(),
        ensures
            final(orchestrator).wf(),
            final(orchestrator).dispatch_enabled,
            final(orchestrator).internals == old(orchestrator).internals,
            final(orchestrator).runner == old(orchestrator).runner,
            final(orchestrator).stages@ == old(orchestrator).stages@,
            final(orchestrator).phase == old(orchestrator).phase,
            final(orchestrator).key_queue == old(orchestrator).key_queue,
    {
        orchestrator.dispatch_enabled = true;
    }
}

/// Keeps, for diagnostics, the name a callable was registered under.
#[derive(Default)]
pub struct SystemStorage {
    pub s: Vec<(MySystemId, String)>,
}

impl SystemStorage {
    /// An empty name store.
    pub fn new() -> (r: SystemStorage)
        ensures
            r.s@.len() == 0,
    {
        SystemStorage { s: Vec::new() }
    }

    /// Registers a callable and records its name under the fresh id.
    pub fn my_add_system<C: Callable>(
        &mut self,
        registry: &mut DynamicCallbackRegistry<C>,
        callable: C,
        name: String,
    ) -> (id: MySystemId)
        ensures
            id.0 == old(registry).slots().len(),
            final(registry).slots() == old(registry).slots().push(
                Some(CallableEntry { initialized: false, callable }),
            ),
            final(self).s@ == old(self).s@.push((id, name)),
    {
        let id = registry.register(callable);
        self.s.push((id, name));
        id
    }
}

} // verus!
