use birb::entities::{register_entities_in, register_entity_in, IdIssuer};
use birb::store::Store;
use parking_lot::RwLock;
use rayon::iter::{IntoParallelIterator, ParallelIterator};

#[test]
fn concurrent_writers_lose_no_update() {
    let shared: RwLock<(IdIssuer, Store<u32>)> = RwLock::new((IdIssuer::new(), Store::new()));
    (0..16u32).into_par_iter().for_each(|writer| {
        for round in 0..50u32 {
            let mut guard = shared.write();
            let (ids, store) = &mut *guard;
            if round % 2 == 0 {
                register_entity_in(ids, store, writer);
            } else {
                register_entities_in(ids, store, &[writer, writer, writer]);
            }
        }
    });
    let guard = shared.read();
    let (ids, store) = &*guard;
    assert_eq!(store.len(), 16 * (25 + 25 * 3));
    assert_eq!(ids.peek(), 16 * (25 + 25 * 3));
    for writer in 0..16u32 {
        let count = store.as_slice().iter().filter(|w| **w == writer).count();
        assert_eq!(count, 25 + 25 * 3);
    }
    let mut seen: Vec<usize> = (0..store.len()).filter_map(|id| store.position(id)).collect();
    seen.sort();
    seen.dedup();
    assert_eq!(seen.len(), store.len());
}
