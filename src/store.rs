use vstd::prelude::*;

verus! {

/// The first index at which `id` stands in `ids`, if it stands there at all.
pub open spec fn first_index(ids: Seq<usize>, id: usize) -> Option<int>
    decreases ids.len(),
{
    if ids.len() == 0 {
        None
    } else if ids[0] == id {
        Some(0)
    } else {
        match first_index(ids.drop_first(), id) {
            Some(i) => Some(i + 1),
            None => None,
        }
    }
}

/// The value filed under `id`, given ids and values in matching order.
pub open spec fn lookup<T>(ids: Seq<usize>, values: Seq<T>, id: usize) -> Option<T> {
    match first_index(ids, id) {
        Some(i) => Some(values[i]),
        None => None,
    }
}

/// `first_index` finds exactly the first occurrence.
pub proof fn lemma_first_index(ids: Seq<usize>, id: usize)
    ensures
        match first_index(ids, id) {
            Some(i) => 0 <= i < ids.len() && ids[i] == id && forall|j: int|
                0 <= j < i ==> ids[j] != id,
            None => forall|j: int| 0 <= j < ids.len() ==> ids[j] != id,
        },
    decreases ids.len(),
{
    if ids.len() > 0 && ids[0] != id {
        lemma_first_index(ids.drop_first(), id);
        match first_index(ids.drop_first(), id) {
            Some(i) => {
                assert forall|j: int| 0 <= j < i + 1 implies ids[j] != id by {
                    if j > 0 {
                        assert(ids[j] == ids.drop_first()[j - 1]);
                    }
                }
            },
            None => {
                assert forall|j: int| 0 <= j < ids.len() implies ids[j] != id by {
                    if j > 0 {
                        assert(ids[j] == ids.drop_first()[j - 1]);
                    }
                }
            },
        }
    }
}

/// Any index whose id is first of its kind is what `first_index` gives.
pub proof fn lemma_first_index_at(ids: Seq<usize>, id: usize, i: int)
    requires
        0 <= i < ids.len(),
        ids[i] == id,
        forall|j: int| 0 <= j < i ==> ids[j] != id,
    ensures
        first_index(ids, id) == Some(i),
{
    lemma_first_index(ids, id);
}

/// The storage for every entity of one type: the ids of the slots and the values
/// in them, in two sequences of equal length and matching order.
pub struct Store<T> {
    ids: Vec<usize>,
    values: Vec<T>,
}

impl<T> Store<T> {
    /// The ids of the slots, in order.
    pub closed spec fn ids(&self) -> Seq<usize> {
        self.ids@
    }

    /// The values in the slots, in order.
    pub closed spec fn values(&self) -> Seq<T> {
        self.values@
    }

    /// Each id has a value at the same index.
    pub open spec fn wf(&self) -> bool {
        self.ids().len() == self.values().len()
    }

    /// The value filed under `id`.
    pub open spec fn value_of(&self, id: usize) -> Option<T> {
        lookup(self.ids(), self.values(), id)
    }

    /// An empty store.
    pub fn new() -> (r: Self)
        ensures
            r.wf(),
            r.ids() == Seq::<usize>::empty(),
            r.values() == Seq::<T>::empty(),
    {
        Store { ids: Vec::new(), values: Vec::new() }
    }

    /// The number of entities held.
    pub fn len(&self) -> (r: usize)
        requires
            self.wf(),
        ensures
            r == self.values().len(),
    {
        self.values.len()
    }

    /// Appends `value` under `id`.
    pub fn push(&mut self, id: usize, value: T)
        requires
            old(self).wf(),
        ensures
            final(self).wf(),
            final(self).ids() == old(self).ids().push(id),
            final(self).values() == old(self).values().push(value),
    {
        self.ids.push(id);
        self.values.push(value);
    }

    /// The index of the slot that holds `id`: the first one, if several do.
    pub fn position(&self, id: usize) -> (r: Option<usize>)
        requires
            self.wf(),
        ensures
            match r {
                Some(i) => i < self.ids().len() && first_index(self.ids(), id) == Some(i as int),
                None => first_index(self.ids(), id) == None::<int>,
            },
    {
        proof {
            lemma_first_index(self.ids@, id);
        }
        let mut i: usize = 0;
        while i < self.ids.len()
            invariant
                0 <= i <= self.ids@.len(),
                forall|j: int| 0 <= j < i ==> self.ids@[j] != id,
            decreases self.ids@.len() - i,
        {
            if self.ids[i] == id {
                proof {
                    lemma_first_index_at(self.ids@, id, i as int);
                }
                return Some(i);
            }
            i = i + 1;
        }
        None
    }

    /// The value filed under `id`; `None` where no slot holds that id.
    pub fn get(&self, id: usize) -> (r: Option<&T>)
        requires
            self.wf(),
        ensures
            match r {
                Some(v) => self.value_of(id) == Some(*v),
                None => self.value_of(id) == None::<T>,
            },
    {
        match self.position(id) {
            Some(i) => Some(&self.values[i]),
            None => None,
        }
    }

    /// Mutable access to the value filed under `id`; `None` where no slot holds
    /// that id.
    pub fn get_mut(&mut self, id: usize) -> (r: Option<&mut T>)
        requires
            old(self).wf(),
        ensures
            match r {
                Some(v) => {
                    &&& old(self).value_of(id) == Some(*v)
                    &&& final(self).ids() == old(self).ids()
                    &&& final(self).values() == old(self).values().update(
                        first_index(old(self).ids(), id)->0,
                        *final(v),
                    )
                },
                None => {
                    &&& old(self).value_of(id) == None::<T>
                    &&& *final(self) == *old(self)
                },
            },
    {
        match self.position(id) {
            Some(i) => Some(&mut self.values[i]),
            None => None,
        }
    }

    /// Every value held, in order.
    pub fn as_slice(&self) -> (r: &[T])
        ensures
            r@ == self.values(),
    {
        self.values.as_slice()
    }

    /// Every value held, in order, to change in place.
    pub fn as_mut_slice(&mut self) -> (r: &mut [T])
        requires
            old(self).wf(),
        ensures
            r@ == old(self).values(),
            final(self).ids() == old(self).ids(),
            final(self).values() == final(r)@,
    {
        self.values.as_mut_slice()
    }
}

impl<T: Clone> Store<T> {
    /// Appends clones of `values` under `ids`, pairwise and in order.
    pub fn extend_from_slice(&mut self, ids: &[usize], values: &[T])
        requires
            old(self).wf(),
            ids@.len() == values@.len(),
        ensures
            final(self).wf(),
            final(self).ids() == old(self).ids() + ids@,
            appended(old(self).values(), values@, final(self).values()),
    {
        self.ids.extend_from_slice(ids);
        self.values.extend_from_slice(values);
        proof {
            assert(self.ids@ =~= old(self).ids@ + ids@);
        }
    }
}

/// `after` is `before` followed by a clone of each value of `batch`, in order.
pub open spec fn appended<T: Clone>(before: Seq<T>, batch: Seq<T>, after: Seq<T>) -> bool {
    &&& after.len() == before.len() + batch.len()
    &&& forall|i: int| 0 <= i < before.len() ==> after[i] == before[i]
    &&& forall|i: int| 0 <= i < batch.len() ==> cloned(batch[i], #[trigger] after[before.len() + i])
}

} // verus!
