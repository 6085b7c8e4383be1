use vstd::prelude::*;

verus! {

/// The JSON text that serde_json writes for the string `s`.
pub uninterp spec fn json_text(s: Seq<char>) -> Seq<u8>;

/// The string that serde_json reads from the JSON text `b`; `None` where `b` is
/// not the JSON text of a string.
pub uninterp spec fn json_string(b: Seq<u8>) -> Option<Seq<char>>;

/// Relies on `serde_json::to_vec`: the JSON text of a string. It cannot fail for a
/// string, which serialises as one JSON string into a `Vec` that accepts every
/// write.
#[verifier::external_body]
fn json_encode_str(s: &String) -> (r: Vec<u8>)
    ensures
        r@ == json_text(s@),
{
    serde_json::to_vec(s).unwrap()
}

/// Relies on `serde_json::from_slice::<String>`: the string that the JSON text
/// holds, or an error where it holds none.
#[verifier::external_body]
fn json_decode_str(b: &[u8]) -> (r: Option<String>)
    ensures
        match r {
            Some(s) => json_string(b@) == Some(s@),
            None => json_string(b@) == None::<Seq<char>>,
        },
{
    serde_json::from_slice::<String>(b).ok()
}

/// A value that a registry keeps as JSON text.
pub trait JsonValue: Sized {
    /// The JSON text of the value.
    spec fn encoded(&self) -> Seq<u8>;

    /// `r` is what reading the JSON text `b` gives.
    spec fn decoded(b: Seq<u8>, r: Option<Self>) -> bool;

    /// The JSON text of the value.
    fn to_json(&self) -> (r: Vec<u8>)
        ensures
            r@ == self.encoded(),
    ;

    /// The value that the JSON text `b` holds, if it holds one.
    fn from_json(b: &[u8]) -> (r: Option<Self>)
        ensures
            Self::decoded(b@, r),
    ;
}

impl JsonValue for String {
    open spec fn encoded(&self) -> Seq<u8> {
        json_text(self@)
    }

    open spec fn decoded(b: Seq<u8>, r: Option<Self>) -> bool {
        match r {
            Some(s) => json_string(b) == Some(s@),
            None => json_string(b) == None::<Seq<char>>,
        }
    }

    fn to_json(&self) -> (r: Vec<u8>) {
        json_encode_str(self)
    }

    fn from_json(b: &[u8]) -> (r: Option<Self>) {
        json_decode_str(b)
    }
}

/// Byte strings filed under string keys, each key at most once.
pub struct KeyValues {
    entries: Vec<(String, Vec<u8>)>,
    data: Ghost<Map<Seq<char>, Seq<u8>>>,
}

impl KeyValues {
    /// What is filed under each key.
    pub closed spec fn view(&self) -> Map<Seq<char>, Seq<u8>> {
        self.data@
    }

    /// The entries list each key once and agree with the map.
    pub closed spec fn wf(&self) -> bool {
        &&& forall|i: int, j: int|
            0 <= i < j < self.entries@.len() ==> self.entries@[i].0@ != self.entries@[j].0@
        &&& forall|k: Seq<char>|
            self.data@.contains_key(k) <==> exists|i: int|
                0 <= i < self.entries@.len() && (#[trigger] self.entries@[i]).0@ == k
        &&& forall|i: int|
            0 <= i < self.entries@.len() ==> self.data@[(#[trigger] self.entries@[i]).0@]
                == self.entries@[i].1@
    }

    /// Nothing filed.
    pub fn new() -> (r: Self)
        ensures
            r.wf(),
            r@ == Map::<Seq<char>, Seq<u8>>::empty(),
    {
        KeyValues { entries: Vec::new(), data: Ghost(Map::empty()) }
    }

    /// The index of the entry for `key`.
    fn find(&self, key: &String) -> (r: Option<usize>)
        requires
            self.wf(),
        ensures
            match r {
                Some(i) => i < self.entries@.len() && self.entries@[i as int].0@ == key@,
                None => !self@.contains_key(key@),
            },
    {
        let mut i: usize = 0;
        while i < self.entries.len()
            invariant
                0 <= i <= self.entries@.len(),
                forall|j: int| 0 <= j < i ==> self.entries@[j].0@ != key@,
            decreases self.entries@.len() - i,
        {
            if self.entries[i].0 == *key {
                return Some(i);
            }
            i = i + 1;
        }
        None
    }

    /// The bytes filed under `key`, if any.
    pub fn get(&self, key: &String) -> (r: Option<&Vec<u8>>)
        requires
            self.wf(),
        ensures
            match r {
                Some(b) => self@.contains_key(key@) && self@[key@] == b@,
                None => !self@.contains_key(key@),
            },
    {
        match self.find(key) {
            Some(i) => Some(&self.entries[i].1),
            None => None,
        }
    }

    /// Files `bytes` under `key`, replacing what was filed there.
    pub fn insert(&mut self, key: String, bytes: Vec<u8>)
        requires
            old(self).wf(),
        ensures
            final(self).wf(),
            final(self)@ == old(self)@.insert(key@, bytes@),
    {
        let ghost k = key@;
        let ghost b = bytes@;
        match self.find(&key) {
            Some(i) => {
                self.entries.set(i, (key, bytes));
                self.data = Ghost(self.data@.insert(k, b));
                proof {
                    let e = self.entries@;
                    assert forall|x: Seq<char>| self.data@.contains_key(x) implies exists|j: int|
                        0 <= j < e.len() && (#[trigger] e[j]).0@ == x by {
                        if x != k {
                            let j = choose|j: int|
                                0 <= j < old(self).entries@.len() && (#[trigger] old(
                                    self,
                                ).entries@[j]).0@ == x;
                            assert(e[j] == old(self).entries@[j]);
                        } else {
                            assert(e[i as int].0@ == x);
                        }
                    }
                    assert forall|j: int| 0 <= j < e.len() implies self.data@[(
                    #[trigger] e[j]).0@] == e[j].1@ by {
                        if j != i {
                            assert(e[j] == old(self).entries@[j]);
                        }
                    }
                }
            },
            None => {
                self.entries.push((key, bytes));
                self.data = Ghost(self.data@.insert(k, b));
                proof {
                    let e = self.entries@;
                    let n = old(self).entries@.len() as int;
                    assert(e[n].0@ == k);
                    assert forall|x: Seq<char>| self.data@.contains_key(x) implies exists|j: int|
                        0 <= j < e.len() && (#[trigger] e[j]).0@ == x by {
                        if x != k {
                            let j = choose|j: int|
                                0 <= j < old(self).entries@.len() && (#[trigger] old(
                                    self,
                                ).entries@[j]).0@ == x;
                            assert(e[j] == old(self).entries@[j]);
                        }
                    }
                    assert forall|j: int| 0 <= j < e.len() implies self.data@[(
                    #[trigger] e[j]).0@] == e[j].1@ by {
                        if j != n {
                            assert(e[j] == old(self).entries@[j]);
                            assert(old(self).data@.contains_key(e[j].0@));
                        }
                    }
                    assert forall|a: int, c: int| 0 <= a < c < e.len() implies e[a].0@ != e[c].0@ by {
                        if c == n {
                            assert(e[a] == old(self).entries@[a]);
                            assert(old(self).data@.contains_key(e[a].0@));
                        } else {
                            assert(e[a] == old(self).entries@[a]);
                            assert(e[c] == old(self).entries@[c]);
                        }
                    }
                }
            },
        }
    }

    /// Every key and its bytes, each key once.
    pub fn entries(&self) -> (r: &Vec<(String, Vec<u8>)>)
        requires
            self.wf(),
        ensures
            forall|i: int, j: int| 0 <= i < j < r@.len() ==> r@[i].0@ != r@[j].0@,
            forall|i: int| 0 <= i < r@.len() ==> self@.contains_key((#[trigger] r@[i]).0@)
                && self@[r@[i].0@] == r@[i].1@,
            forall|k: Seq<char>| #[trigger] self@.contains_key(k) ==> exists|i: int|
                0 <= i < r@.len() && (#[trigger] r@[i]).0@ == k,
    {
        &self.entries
    }
}

/// Files the JSON text of `object` under `key` in `data`.
pub fn store_json<T: JsonValue>(data: &mut KeyValues, key: String, object: &T)
    requires
        old(data).wf(),
    ensures
        final(data).wf(),
        final(data)@ == old(data)@.insert(key@, object.encoded()),
{
    let bytes = object.to_json();
    data.insert(key, bytes);
}

/// Reads the value filed under `key` in `data`: `None` where nothing is filed
/// there, else what reading its JSON text gives.
pub fn get_json<T: JsonValue>(data: &KeyValues, key: &String) -> (r: Option<T>)
    requires
        data.wf(),
    ensures
        !data@.contains_key(key@) ==> r is None,
        data@.contains_key(key@) ==> T::decoded(data@[key@], r),
{
    match data.get(key) {
        Some(bytes) => T::from_json(bytes.as_slice()),
        None => None,
    }
}

} // verus!
