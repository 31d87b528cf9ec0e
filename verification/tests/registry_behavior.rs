use ruminative::state::{DeferredMutation, SimulationState};
use ruminative::systems::{
    Callable, DynamicCallbackRegistry, KeyPressed, MySystemId, OnKeyPress, RegistryError,
    SystemStorage, run_systems,
};

/// A callable that marks its one-time preparation in slot 1 and adds its
/// argument to slot 0, half directly and half through the deferred queue.
struct Accumulator;

impl Callable for Accumulator {
    fn prepare(&mut self, state: &mut SimulationState) {
        let seen = state.read_slot(1).unwrap_or(0);
        state.write_slot(1, seen + 100);
    }

    fn call(&mut self, state: &mut SimulationState, arg: i64) {
        let current = state.read_slot(0).unwrap_or(0);
        state.write_slot(0, current + arg);
        state.defer(DeferredMutation::AddSlot { slot: 2, delta: arg });
    }
}

#[test]
fn numeric_callback_side_effect_runs_exactly_once() {
    let mut registry: DynamicCallbackRegistry<Accumulator> = DynamicCallbackRegistry::new();
    let mut state = SimulationState::new(3);
    let id = registry.register(Accumulator);
    assert_eq!(registry.invoke(&mut state, id, 5), Ok(()));
    // The bound side effect ran exactly once, both directly and deferred.
    assert_eq!(state.read_slot(0), Some(5));
    assert_eq!(state.read_slot(2), Some(5));
    // The entry is present, not checked out, immediately after invoke.
    assert!(registry.present(id));
    // The deferred queue was drained.
    assert_eq!(state.deferred.len(), 0);
}

#[test]
fn reentrant_invocation_returns_unknown_id() {
    let mut registry: DynamicCallbackRegistry<Accumulator> = DynamicCallbackRegistry::new();
    let mut state = SimulationState::new(3);
    let id = registry.register(Accumulator);
    // Simulate reentry: the entry is mid-execution, so it is checked out.
    let entry = registry.checkout(id).expect("first checkout succeeds");
    assert!(!registry.present(id));
    // Invoking the same id now must fail, not block and not panic...
    assert_eq!(registry.invoke(&mut state, id, 9), Err(RegistryError::UnknownId));
    // ...and must mutate nothing.
    assert_eq!(state.read_slot(0), Some(0));
    assert_eq!(state.read_slot(1), Some(0));
    // Once the outer execution finishes, the id works again.
    registry.reinsert(id, entry);
    assert_eq!(registry.invoke(&mut state, id, 9), Ok(()));
    assert_eq!(state.read_slot(0), Some(9));
}

#[test]
fn unknown_id_is_rejected_without_effect() {
    let mut registry: DynamicCallbackRegistry<Accumulator> = DynamicCallbackRegistry::new();
    let mut state = SimulationState::new(3);
    assert_eq!(
        registry.invoke(&mut state, MySystemId(0), 1),
        Err(RegistryError::UnknownId)
    );
    let id = registry.register(Accumulator);
    assert_eq!(
        registry.invoke(&mut state, MySystemId(id.0 + 1), 1),
        Err(RegistryError::UnknownId)
    );
    assert_eq!(state.read_slot(0), Some(0));
}

#[test]
fn preparation_runs_once_across_invocations() {
    let mut registry: DynamicCallbackRegistry<Accumulator> = DynamicCallbackRegistry::new();
    let mut state = SimulationState::new(3);
    let id = registry.register(Accumulator);
    registry.invoke(&mut state, id, 2).unwrap();
    registry.invoke(&mut state, id, 3).unwrap();
    // prepare marked slot 1 once; call added to slot 0 twice.
    assert_eq!(state.read_slot(1), Some(100));
    assert_eq!(state.read_slot(0), Some(5));
}

#[test]
fn registration_hands_out_consecutive_ids() {
    let mut registry: DynamicCallbackRegistry<Accumulator> = DynamicCallbackRegistry::new();
    let a = registry.register(Accumulator);
    let b = registry.register(Accumulator);
    assert_eq!(a, MySystemId(0));
    assert_eq!(b, MySystemId(1));
    assert_eq!(registry.len(), 2);
    assert!(registry.present(a));
    assert!(registry.present(b));
}

#[test]
fn deferred_mutations_apply_in_order_and_saturate() {
    let mut state = SimulationState::new(2);
    state.defer(DeferredMutation::SetSlot { slot: 0, value: 7 });
    state.defer(DeferredMutation::AddSlot { slot: 0, delta: 3 });
    state.defer(DeferredMutation::SetSlot { slot: 1, value: i64::MAX });
    state.defer(DeferredMutation::AddSlot { slot: 1, delta: 1 });
    // A mutation aimed at a slot that does not exist is dropped.
    state.defer(DeferredMutation::SetSlot { slot: 9, value: 1 });
    state.apply_deferred();
    assert_eq!(state.read_slot(0), Some(10));
    assert_eq!(state.read_slot(1), Some(i64::MAX));
    assert_eq!(state.deferred.len(), 0);
}

#[test]
fn run_systems_dispatches_each_bound_callable_per_key() {
    let mut registry: DynamicCallbackRegistry<Accumulator> = DynamicCallbackRegistry::new();
    let mut state = SimulationState::new(3);
    let first = registry.register(Accumulator);
    let second = registry.register(Accumulator);
    let bindings = vec![OnKeyPress(Some(first)), OnKeyPress(None), OnKeyPress(Some(second))];
    let keys = vec![KeyPressed(7), KeyPressed(11)];
    let attempts = run_systems(&mut registry, &mut state, &keys, &bindings);
    let attempted: Vec<(MySystemId, bool)> = attempts;
    assert_eq!(
        attempted,
        vec![(first, true), (second, true), (first, true), (second, true)]
    );
    // Each key code was handed to each bound callable once: 2 * (7 + 11).
    assert_eq!(state.read_slot(0), Some(36));
}

#[test]
fn run_systems_with_no_keys_touches_nothing() {
    let mut registry: DynamicCallbackRegistry<Accumulator> = DynamicCallbackRegistry::new();
    let mut state = SimulationState::new(3);
    let id = registry.register(Accumulator);
    let bindings = vec![OnKeyPress(Some(id))];
    let attempts = run_systems(&mut registry, &mut state, &Vec::new(), &bindings);
    assert!(attempts.is_empty());
    assert_eq!(state.read_slot(0), Some(0));
    assert_eq!(state.read_slot(1), Some(0));
}

#[test]
fn system_storage_records_names_under_fresh_ids() {
    let mut registry: DynamicCallbackRegistry<Accumulator> = DynamicCallbackRegistry::new();
    let mut storage = SystemStorage::new();
    let id = storage.my_add_system(&mut registry, Accumulator, String::from("accumulate"));
    assert_eq!(id, MySystemId(0));
    assert_eq!(storage.s.len(), 1);
    assert_eq!(storage.s[0].0, id);
    assert_eq!(storage.s[0].1, "accumulate");
    assert!(registry.present(id));
}
