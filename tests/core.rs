use birb::entities::{register_entities_in, register_entity_in, IdIssuer};
use birb::entity_id::{TypedEntityID, UntypedEntityID};
use birb::schedule::{RunState, Step};
use birb::store::Store;

#[derive(Clone, Copy, Debug, PartialEq)]
struct Position {
    x: i32,
    y: i32,
}

#[derive(Clone, Copy, Debug, PartialEq)]
struct Counter {
    value: u64,
}

#[test]
fn ids_are_unique_across_types() {
    let mut issuer = IdIssuer::new();
    let mut positions: Store<Position> = Store::new();
    let mut counters: Store<Counter> = Store::new();
    let a = register_entity_in(&mut issuer, &mut positions, Position { x: 1, y: 2 });
    let run = register_entities_in(&mut issuer, &mut counters, &[Counter { value: 5 }, Counter { value: 6 }]);
    let b = register_entity_in(&mut issuer, &mut positions, Position { x: 3, y: 4 });
    let mut all = vec![a.value(), b.value()];
    all.extend_from_slice(&run);
    assert_eq!(all, vec![0, 3, 1, 2]);
    all.sort();
    all.dedup();
    assert_eq!(all.len(), 4);
    assert_eq!(issuer.peek(), 4);
}

#[test]
fn batch_ids_are_contiguous() {
    let mut issuer = IdIssuer::new();
    assert_eq!(issuer.issue(), 0);
    assert_eq!(issuer.reserve(3), vec![1, 2, 3]);
    assert_eq!(issuer.reserve(0), Vec::<usize>::new());
    assert_eq!(issuer.issue(), 4);
}

#[test]
fn round_trip() {
    let mut issuer = IdIssuer::new();
    let mut store: Store<Position> = Store::new();
    register_entities_in(&mut issuer, &mut store, &[Position { x: 0, y: 0 }; 3]);
    let id = register_entity_in(&mut issuer, &mut store, Position { x: 7, y: -7 });
    assert_eq!(store.get(id.value()), Some(&Position { x: 7, y: -7 }));
    assert_eq!(store.position(id.value()), Some(3));
}

#[test]
fn count_fidelity_and_order() {
    let mut issuer = IdIssuer::new();
    let mut store: Store<Counter> = Store::new();
    register_entity_in(&mut issuer, &mut store, Counter { value: 1 });
    register_entities_in(&mut issuer, &mut store, &[Counter { value: 2 }, Counter { value: 3 }]);
    register_entity_in(&mut issuer, &mut store, Counter { value: 4 });
    register_entities_in(&mut issuer, &mut store, &[]);
    let values: Vec<u64> = store.as_slice().iter().map(|c| c.value).collect();
    assert_eq!(values, vec![1, 2, 3, 4]);
    assert_eq!(store.len(), 4);
}

#[test]
fn absent_id_is_none() {
    let mut issuer = IdIssuer::new();
    let mut store: Store<Counter> = Store::new();
    assert_eq!(store.get(0), None);
    assert!(store.as_slice().is_empty());
    register_entity_in(&mut issuer, &mut store, Counter { value: 1 });
    assert_eq!(store.get(1), None);
    assert!(store.get_mut(99).is_none());
    assert_eq!(store.position(99), None);
}

#[test]
fn get_mut_changes_one_value() {
    let mut issuer = IdIssuer::new();
    let mut store: Store<Counter> = Store::new();
    let ids = register_entities_in(&mut issuer, &mut store, &[Counter { value: 1 }, Counter { value: 2 }]);
    if let Some(c) = store.get_mut(ids[1]) {
        c.value = 20;
    }
    assert_eq!(store.get(ids[0]), Some(&Counter { value: 1 }));
    assert_eq!(store.get(ids[1]), Some(&Counter { value: 20 }));
}

#[test]
fn bulk_mutation_over_sixty_cycles() {
    let mut issuer = IdIssuer::new();
    let mut store: Store<Counter> = Store::new();
    let initial = vec![Counter { value: 0 }; 1_000_000];
    register_entities_in(&mut issuer, &mut store, &initial);
    let offset: u64 = 1;
    for _ in 0..60 {
        for c in store.as_mut_slice().iter_mut() {
            c.value += offset;
        }
    }
    assert_eq!(store.len(), 1_000_000);
    assert!(store.as_slice().iter().all(|c| c.value == 60));
}

#[test]
fn entity_id_conversions() {
    let typed: TypedEntityID<Counter> = TypedEntityID::from(5usize);
    let untyped: UntypedEntityID = typed.into();
    assert_eq!(untyped, UntypedEntityID(5));
    assert_eq!(UntypedEntityID::from(9usize).value(), 9);
    assert_eq!(typed.untyped(), untyped);
    let copy = typed;
    assert_eq!(copy, typed);
    assert_ne!(TypedEntityID::<Counter>::new(6), typed);
}

#[test]
fn exit_stops_after_the_cycle() {
    let mut state = RunState::new();
    assert_eq!(state.next_step(), Step::Stop);
    state.start();
    let mut cycles = 0;
    let mut modules_run = 0;
    while state.next_step() == Step::Tick {
        cycles += 1;
        for module in 0..3 {
            modules_run += 1;
            if cycles == 2 && module == 0 {
                state.exit();
            }
        }
    }
    assert_eq!(cycles, 2);
    assert_eq!(modules_run, 6);
    assert!(!state.is_running());
}
