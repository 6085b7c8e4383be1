use crate::kv::{get_json, store_json, JsonValue, KeyValues};
use vstd::prelude::*;

verus! {

/// A module that keeps values as JSON text under string keys.
pub struct Registry {
    data: KeyValues,
}

impl Registry {
    /// The JSON text filed under each key.
    pub closed spec fn view(&self) -> Map<Seq<char>, Seq<u8>> {
        self.data@
    }

    /// The registry's own invariant.
    pub closed spec fn wf(&self) -> bool {
        self.data.wf()
    }

    /// An empty registry.
    pub fn new() -> (r: Self)
        ensures
            r.wf(),
            r@ == Map::<Seq<char>, Seq<u8>>::empty(),
    {
        Registry { data: KeyValues::new() }
    }

    /// Files the JSON text of `object` under `key`, replacing what was there.
    pub fn store<T: JsonValue>(&mut self, key: String, object: &T)
        requires
            old(self).wf(),
        ensures
            final(self).wf(),
            final(self)@ == old(self)@.insert(key@, object.encoded()),
    {
        store_json(&mut self.data, key, object);
    }

    /// The value filed under `key`: `None` where nothing is filed there or its
    /// text does not hold a `T`.
    pub fn get<T: JsonValue>(&self, key: String) -> (r: Option<T>)
        requires
            self.wf(),
        ensures
            !self@.contains_key(key@) ==> r is None,
            self@.contains_key(key@) ==> T::decoded(self@[key@], r),
    {
        get_json(&self.data, &key)
    }
}

} // verus!
