use crate::kv::{get_json, store_json, JsonValue, KeyValues};
use vstd::prelude::*;

verus! {

/// The file that a registry saves to and loads from unless told otherwise.
pub open spec fn default_save_location() -> Seq<char> {
    "registry_store.json"@
}

/// A module that keeps values as JSON text under string keys and can be saved to
/// and loaded from a file.
pub struct Registry {
    data: KeyValues,
    default_save_point: String,
}

impl Registry {
    /// The JSON text filed under each key.
    pub closed spec fn view(&self) -> Map<Seq<char>, Seq<u8>> {
        self.data@
    }

    /// The file used when no other is named.
    pub closed spec fn default_save_point(&self) -> Seq<char> {
        self.default_save_point@
    }

    /// The registry's own invariant.
    pub closed spec fn wf(&self) -> bool {
        self.data.wf()
    }

    /// An empty registry that saves to `registry_store.json`.
    pub fn new() -> (r: Self)
        ensures
            r.wf(),
            r@ == Map::<Seq<char>, Seq<u8>>::empty(),
            r.default_save_point() == default_save_location(),
    {
        proof {
            reveal_strlit("registry_store.json");
        }
        Registry { data: KeyValues::new(), default_save_point: "registry_store.json".to_owned() }
    }

    /// Files the JSON text of `object` under `key`, replacing what was there.
    pub fn store<T: JsonValue>(&mut self, key: String, object: &T)
        requires
            old(self).wf(),
        ensures
            final(self).wf(),
            final(self)@ == old(self)@.insert(key@, object.encoded()),
            final(self).default_save_point() == old(self).default_save_point(),
    {
        store_json(&mut self.data, key, object);
    }

    /// The value filed under `key`: `None` where nothing is filed there or its
    /// text does not hold a `T`.
    pub fn get<T: JsonValue>(&self, key: String) -> (r: Option<T>)
        requires
            self.wf(),
        ensures
            !self@.contains_key(key@) ==> r is None,
            self@.contains_key(key@) ==> T::decoded(self@[key@], r),
    {
        get_json(&self.data, &key)
    }

    /// The file to save to or load from: `save_point` where one is named, else
    /// the default.
    pub fn save_path(&self, save_point: Option<&str>) -> (r: String)
        ensures
            r@ == match save_point {
                Some(p) => p@,
                None => self.default_save_point(),
            },
    {
        match save_point {
            Some(p) => p.to_owned(),
            None => self.default_save_point.clone(),
        }
    }

    /// Every key and its JSON text, each key once: what a save writes.
    pub fn entries(&self) -> (r: &Vec<(String, Vec<u8>)>)
        requires
            self.wf(),
        ensures
            forall|i: int, j: int| 0 <= i < j < r@.len() ==> r@[i].0@ != r@[j].0@,
            forall|i: int| 0 <= i < r@.len() ==> self@.contains_key((#[trigger] r@[i]).0@)
                && self@[r@[i].0@] == r@[i].1@,
            forall|k: Seq<char>| #[trigger] self@.contains_key(k) ==> exists|i: int|
                0 <= i < r@.len() && (#[trigger] r@[i]).0@ == k,
    {
        self.data.entries()
    }

    /// Replaces everything filed with `entries`, a later entry for a key winning
    /// over an earlier one: what a load puts in place.
    pub fn replace_data(&mut self, entries: Vec<(String, Vec<u8>)>)
        requires
            old(self).wf(),
        ensures
            final(self).wf(),
            final(self)@ == entries_map(entries@, entries@.len() as int),
            final(self).default_save_point() == old(self).default_save_point(),
    {
        let mut data = KeyValues::new();
        let mut i: usize = 0;
        while i < entries.len()
            invariant
                0 <= i <= entries@.len(),
                data.wf(),
                data@ == entries_map(entries@, i as int),
            decreases entries@.len() - i,
        {
            let k = entries[i].0.clone();
            let v = entries[i].1.clone();
            data.insert(k, v);
            i = i + 1;
        }
        self.data = data;
    }
}

/// The map that the first `n` entries give, a later entry for a key winning.
pub open spec fn entries_map(entries: Seq<(String, Vec<u8>)>, n: int) -> Map<Seq<char>, Seq<u8>>
    decreases n,
{
    if n <= 0 {
        Map::empty()
    } else {
        entries_map(entries, n - 1).insert(entries[n - 1].0@, entries[n - 1].1@)
    }
}

} // verus!
