use crate::entity_id::TypedEntityID;
use crate::store::{appended, lemma_first_index_at, Store};
use vstd::prelude::*;

verus! {

/// The ids `start`, `start + 1`, ..., `end - 1`, in order.
pub open spec fn id_run(start: nat, end: nat) -> Seq<usize> {
    Seq::new((end - start) as nat, |i: int| (start + i) as usize)
}

/// Every id of the store lies below `bound`.
pub open spec fn ids_below<T>(store: Store<T>, bound: nat) -> bool {
    forall|i: int| 0 <= i < store.ids().len() ==> (store.ids()[i] as nat) < bound
}

/// Hands out entity ids in increasing order, each one once, across every entity
/// type of a registry.
pub struct IdIssuer {
    next: usize,
}

impl IdIssuer {
    /// The id that the next registration receives.
    pub closed spec fn counter(&self) -> nat {
        self.next as nat
    }

    /// A counter that starts at id 0.
    pub fn new() -> (r: Self)
        ensures
            r.counter() == 0,
    {
        IdIssuer { next: 0 }
    }

    /// The id that the next registration receives.
    pub fn peek(&self) -> (r: usize)
        ensures
            r == self.counter(),
    {
        self.next
    }

    /// Takes one id.
    pub fn issue(&mut self) -> (r: usize)
        requires
            old(self).counter() < usize::MAX,
        ensures
            r == old(self).counter(),
            final(self).counter() == old(self).counter() + 1,
            seq![r] == id_run(old(self).counter(), final(self).counter()),
    {
        let r = self.next;
        self.next = self.next + 1;
        assert(seq![r] =~= id_run(r as nat, self.next as nat));
        r
    }

    /// Takes `n` consecutive ids in one step.
    pub fn reserve(&mut self, n: usize) -> (r: Vec<usize>)
        requires
            old(self).counter() + n <= usize::MAX,
        ensures
            final(self).counter() == old(self).counter() + n,
            r@ == id_run(old(self).counter(), final(self).counter()),
    {
        let start = self.next;
        let mut r: Vec<usize> = Vec::new();
        let mut i: usize = 0;
        while i < n
            invariant
                0 <= i <= n,
                start + n <= usize::MAX,
                r@ == id_run(start as nat, (start + i) as nat),
            decreases n - i,
        {
            r.push(start + i);
            i = i + 1;
            assert(r@ =~= id_run(start as nat, (start + i) as nat));
        }
        self.next = start + n;
        r
    }
}

/// Ids handed out by two calls of the issuer, the second made no earlier than the
/// first one's end, are pairwise distinct, within each call and across the two.
pub proof fn lemma_ids_unique(a: nat, b: nat, c: nat, d: nat)
    requires
        a <= b <= c <= d <= usize::MAX,
    ensures
        forall|i: int, j: int|
            0 <= i < j < id_run(a, b).len() ==> id_run(a, b)[i] != id_run(a, b)[j],
        forall|i: int, j: int|
            0 <= i < id_run(a, b).len() && 0 <= j < id_run(c, d).len() ==> id_run(a, b)[i]
                != id_run(c, d)[j],
{
}

/// Files `entity` in `store` under a fresh id from `issuer`: the id that
/// registering one entity hands back.
pub fn register_entity_in<T>(issuer: &mut IdIssuer, store: &mut Store<T>, entity: T) -> (r:
    TypedEntityID<T>)
    requires
        old(store).wf(),
        ids_below(*old(store), old(issuer).counter()),
        old(issuer).counter() < usize::MAX,
    ensures
        r.0 == old(issuer).counter(),
        final(issuer).counter() == old(issuer).counter() + 1,
        final(store).wf(),
        final(store).ids() == old(store).ids().push(r.0),
        final(store).values() == old(store).values().push(entity),
        final(store).value_of(r.0) == Some(entity),
        ids_below(*final(store), final(issuer).counter()),
{
    let id = issuer.issue();
    store.push(id, entity);
    proof {
        lemma_round_trip(*old(store), *store, id, entity);
    }
    TypedEntityID::new(id)
}

/// Files clones of `entities` in `store` under a run of fresh, consecutive ids
/// from `issuer`, in order: the same as registering each in turn.
pub fn register_entities_in<T: Clone>(issuer: &mut IdIssuer, store: &mut Store<T>, entities: &[T]) -> (r:
    Vec<usize>)
    requires
        old(store).wf(),
        ids_below(*old(store), old(issuer).counter()),
        old(issuer).counter() + entities@.len() <= usize::MAX,
    ensures
        r@ == id_run(old(issuer).counter(), final(issuer).counter()),
        final(issuer).counter() == old(issuer).counter() + entities@.len(),
        final(store).wf(),
        final(store).ids() == old(store).ids() + r@,
        appended(old(store).values(), entities@, final(store).values()),
        forall|k: int|
            0 <= k < r@.len() ==> #[trigger] final(store).value_of(r@[k]) == Some(
                final(store).values()[old(store).values().len() + k],
            ),
        ids_below(*final(store), final(issuer).counter()),
{
    let ids = issuer.reserve(entities.len());
    store.extend_from_slice(ids.as_slice(), entities);
    proof {
        let before = old(store).ids();
        let all = store.ids();
        assert forall|k: int| 0 <= k < ids@.len() implies #[trigger] store.value_of(ids@[k])
            == Some(store.values()[before.len() + k]) by {
            let at = before.len() + k;
            assert(all[at] == ids@[k]);
            assert forall|j: int| 0 <= j < at implies all[j] != ids@[k] by {
                if j < before.len() {
                    assert(all[j] == before[j]);
                } else {
                    assert(all[j] == ids@[j - before.len()]);
                }
            }
            lemma_first_index_at(all, ids@[k], at);
        }
        assert forall|i: int| 0 <= i < all.len() implies (all[i] as nat) < issuer.counter() by {
            if i >= before.len() {
                assert(all[i] == ids@[i - before.len()]);
            }
        }
    }
    ids
}

/// Looking up an id just filed in a store whose ids all differ from it gives the
/// value filed with it.
pub proof fn lemma_round_trip<T>(before: Store<T>, after: Store<T>, id: usize, value: T)
    requires
        before.wf(),
        forall|i: int| 0 <= i < before.ids().len() ==> before.ids()[i] != id,
        after.ids() == before.ids().push(id),
        after.values() == before.values().push(value),
    ensures
        after.value_of(id) == Some(value),
{
    let at = before.ids().len() as int;
    assert forall|j: int| 0 <= j < at implies after.ids()[j] != id by {
        assert(after.ids()[j] == before.ids()[j]);
    }
    lemma_first_index_at(after.ids(), id, at);
}

/// After a run of registrations into one store that starts empty, batch `k` going
/// in at step `k` (a single registration is a batch of one), the store holds
/// exactly as many values as were registered, each a clone of the value
/// registered at its place, in registration order.
pub proof fn lemma_count_fidelity<T: Clone>(history: Seq<Store<T>>, batches: Seq<Seq<T>>)
    requires
        history.len() == batches.len() + 1,
        history[0].values() == Seq::<T>::empty(),
        forall|k: int|
            0 <= k < batches.len() ==> appended(
                history[k].values(),
                batches[k],
                #[trigger] history[k + 1].values(),
            ),
    ensures
        history.last().values().len() == batches.flatten().len(),
        appended(Seq::<T>::empty(), batches.flatten(), history.last().values()),
    decreases batches.len(),
{
    if batches.len() == 0 {
        assert(history.last() == history[0]);
    } else {
        let n = batches.len() - 1;
        let h = history.drop_last();
        let b = batches.drop_last();
        assert forall|k: int| 0 <= k < b.len() implies appended(
            h[k].values(),
            b[k],
            #[trigger] h[k + 1].values(),
        ) by {
            assert(appended(history[k].values(), batches[k], history[k + 1].values()));
        }
        lemma_count_fidelity(h, b);
        assert(batches == b.push(batches[n]));
        b.lemma_flatten_push(batches[n]);
        let flat = b.flatten();
        let x = batches[n];
        let mid = history[n].values();
        let last = history[n + 1].values();
        assert(appended(mid, x, last));
        assert(h.last() == history[n]);
        assert forall|i: int| 0 <= i < flat.len() + x.len() implies cloned(
            (flat + x)[i],
            #[trigger] last[Seq::<T>::empty().len() + i],
        ) by {
            if i < flat.len() {
                assert(cloned(flat[i], mid[Seq::<T>::empty().len() + i]));
                assert(last[i] == mid[i]);
            } else {
                let j = i - flat.len();
                assert(cloned(x[j], last[mid.len() + j]));
            }
        }
    }
}

} // verus!
