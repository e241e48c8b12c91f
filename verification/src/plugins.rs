//! The key-value store fan-curve plugins keep their state in.
//!
//! A plugin stores a byte string under a C-string key with `set`, and reads
//! it back with `get` into a buffer it provides. The pointers of the C
//! interface arrive here as plain values: `None` stands for a null pointer,
//! a buffer's capacity is a number, and what `get` writes back (the length,
//! and the bytes) is returned.
use vstd::prelude::*;

verus! {

/// How a `get` went.
#[derive(Clone, Copy, Debug, PartialEq, Eq, Structural)]
pub enum PluginGetStatus {
    /// The buffer was large enough and the data was copied.
    Success,
    /// The key does not exist, or an argument was null.
    NotFound,
    /// The key exists, but the buffer was null or too small; the required
    /// size has been written to the length out-parameter.
    BufferTooSmall,
}

/// What a `get` hands back: its status, the length written to the length
/// out-parameter (if it was written), and the bytes copied to the buffer
/// (if they were).
pub struct PluginGetReply {
    pub status: PluginGetStatus,
    /// The stored value's length, written whenever the key was found.
    pub written_len: Option<usize>,
    /// The stored value, copied only on success.
    pub data: Option<Vec<u8>>,
}

/// The plugins' key-value state: each key at most once.
pub struct PluginStore {
    entries: Vec<(Vec<u8>, Vec<u8>)>,
}

/// Whether some entry has key `k`.
pub open spec fn has_key(e: Seq<(Vec<u8>, Vec<u8>)>, k: Seq<u8>) -> bool {
    exists|i: int| 0 <= i < e.len() && (#[trigger] e[i]).0@ == k
}

/// The map the entries stand for.
pub open spec fn entries_map(e: Seq<(Vec<u8>, Vec<u8>)>) -> Map<Seq<u8>, Seq<u8>> {
    Map::new(
        |k: Seq<u8>| has_key(e, k),
        |k: Seq<u8>| e[choose|i: int| 0 <= i < e.len() && (#[trigger] e[i]).0@ == k].1@,
    )
}

/// No key occurs twice.
pub open spec fn keys_distinct(e: Seq<(Vec<u8>, Vec<u8>)>) -> bool {
    forall|i: int, j: int| 0 <= i < e.len() && 0 <= j < e.len() && i != j ==> (#[trigger] e[i]).0@
        != (#[trigger] e[j]).0@
}

impl View for PluginStore {
    type V = Map<Seq<u8>, Seq<u8>>;

    closed spec fn view(&self) -> Map<Seq<u8>, Seq<u8>> {
        entries_map(self.entries@)
    }
}

/// In a store whose keys are distinct, the entry at `i` is what its key
/// maps to.
proof fn lemma_entry_value(e: Seq<(Vec<u8>, Vec<u8>)>, i: int)
    requires
        keys_distinct(e),
        0 <= i < e.len(),
    ensures
        entries_map(e).contains_key(e[i].0@),
        entries_map(e)[e[i].0@] == e[i].1@,
{
    assert(has_key(e, e[i].0@));
    let j = choose|j: int| 0 <= j < e.len() && (#[trigger] e[j]).0@ == e[i].0@;
    assert(j == i);
}

/// Whether two byte strings are equal.
fn bytes_eq(a: &[u8], b: &[u8]) -> (r: bool)
    ensures
        r == (a@ == b@),
{
    if a.len() != b.len() {
        return false;
    }
    let mut i: usize = 0;
    while i < a.len()
        invariant
            a.len() == b.len(),
            i <= a.len(),
            forall|j: int| 0 <= j < i ==> a@[j] == b@[j],
        decreases a.len() - i,
    {
        if a[i] != b[i] {
            return false;
        }
        i = i + 1;
    }
    assert(a@ =~= b@);
    true
}

/// A copy of a byte slice.
fn copy_bytes(s: &[u8]) -> (r: Vec<u8>)
    ensures
        r@ == s@,
{
    let mut v: Vec<u8> = Vec::new();
    let mut i: usize = 0;
    while i < s.len()
        invariant
            i <= s.len(),
            v@ == s@.subrange(0, i as int),
        decreases s.len() - i,
    {
        v.push(s[i]);
        i = i + 1;
        assert(v@ =~= s@.subrange(0, i as int));
    }
    assert(s@.subrange(0, s.len() as int) =~= s@);
    v
}

impl PluginStore {
    #[verifier::type_invariant]
    spec fn distinct_keys(&self) -> bool {
        keys_distinct(self.entries@)
    }

    /// An empty store.
    pub fn new() -> (s: PluginStore)
        ensures
            s@ == Map::<Seq<u8>, Seq<u8>>::empty(),
    {
        let s = PluginStore { entries: Vec::new() };
        assert(s@ =~= Map::<Seq<u8>, Seq<u8>>::empty());
        s
    }

    /// Index of the entry with key `key`.
    fn find(&self, key: &[u8]) -> (r: Option<usize>)
        ensures
            r matches Some(i) ==> i < self.entries@.len() && self.entries@[i as int].0@ == key@,
            r is None ==> !has_key(self.entries@, key@),
    {
        let mut i: usize = 0;
        while i < self.entries.len()
            invariant
                i <= self.entries@.len(),
                forall|j: int| 0 <= j < i ==> (#[trigger] self.entries@[j]).0@ != key@,
            decreases self.entries@.len() - i,
        {
            if bytes_eq(self.entries[i].0.as_slice(), key) {
                return Some(i);
            }
            i = i + 1;
        }
        None
    }

    /// Store `value` under `key`, replacing what was there.
    pub fn insert(&mut self, key: &[u8], value: Vec<u8>)
        ensures
            final(self)@ == old(self)@.insert(key@, value@),
    {
        proof {
            use_type_invariant(&*self);
        }
        let ghost before = self.entries@;
        match self.find(key) {
            Some(i) => {
                let k = copy_bytes(key);
                let mut entries: Vec<(Vec<u8>, Vec<u8>)> = Vec::new();
                std::mem::swap(&mut entries, &mut self.entries);
                entries.set(i, (k, value));
                let ghost after = entries@;
                assert(keys_distinct(after)) by {
                    assert forall|a: int, b: int|
                        0 <= a < after.len() && 0 <= b < after.len() && a != b implies (
                    #[trigger] after[a]).0@ != (#[trigger] after[b]).0@ by {
                        if a != i && b != i {
                            assert(before[a].0@ != before[b].0@);
                        } else if a == i {
                            assert(before[i as int].0@ != before[b].0@);
                        } else {
                            assert(before[a].0@ != before[i as int].0@);
                        }
                    }
                }
                self.entries = entries;
                proof {
                    assert forall|k: Seq<u8>| has_key(after, k) == (has_key(before, k) || k
                        == key@) by {
                        if has_key(before, k) {
                            let j = choose|j: int| 0 <= j < before.len() && (#[trigger] before[j]).0@ == k;
                            if j == i {
                                assert(after[i as int].0@ == k);
                            } else {
                                assert(after[j].0@ == k);
                            }
                        }
                        if has_key(after, k) {
                            let j = choose|j: int| 0 <= j < after.len() && (#[trigger] after[j]).0@ == k;
                            if j != i {
                                assert(before[j].0@ == k);
                            }
                        }
                        if k == key@ {
                            assert(after[i as int].0@ == k);
                        }
                    }
                    assert forall|k: Seq<u8>| has_key(after, k) implies entries_map(after)[k]
                        == old(self)@.insert(key@, value@)[k] by {
                        let j = choose|j: int| 0 <= j < after.len() && (#[trigger] after[j]).0@ == k;
                        lemma_entry_value(after, j);
                        if j != i {
                            assert(before[j].0@ == k);
                            lemma_entry_value(before, j);
                        }
                    }
                    assert(self@ =~= old(self)@.insert(key@, value@));
                }
            },
            None => {
                let k = copy_bytes(key);
                let ghost n = before.len() as int;
                let mut entries: Vec<(Vec<u8>, Vec<u8>)> = Vec::new();
                std::mem::swap(&mut entries, &mut self.entries);
                entries.push((k, value));
                let ghost after = entries@;
                assert(keys_distinct(after)) by {
                    assert forall|a: int, b: int|
                        0 <= a < after.len() && 0 <= b < after.len() && a != b implies (
                    #[trigger] after[a]).0@ != (#[trigger] after[b]).0@ by {
                        if a < n && b < n {
                            assert(before[a].0@ != before[b].0@);
                            assert(after[a] == before[a] && after[b] == before[b]);
                        } else if a == n {
                            assert(after[b] == before[b]);
                            assert(!has_key(before, key@));
                        } else {
                            assert(after[a] == before[a]);
                            assert(!has_key(before, key@));
                        }
                    }
                }
                self.entries = entries;
                proof {
                    assert(after[n].0@ == key@);
                    assert forall|a: int| 0 <= a < n implies before[a] == #[trigger] after[a] by {}
                    assert forall|k2: Seq<u8>| has_key(after, k2) == (has_key(before, k2) || k2
                        == key@) by {
                        if has_key(before, k2) {
                            let j = choose|j: int| 0 <= j < before.len() && (#[trigger] before[j]).0@ == k2;
                            assert(after[j].0@ == k2);
                        }
                        if has_key(after, k2) {
                            let j = choose|j: int| 0 <= j < after.len() && (#[trigger] after[j]).0@ == k2;
                            if j < n {
                                assert(before[j].0@ == k2);
                            }
                        }
                    }
                    assert forall|k2: Seq<u8>| has_key(after, k2) implies entries_map(after)[k2]
                        == old(self)@.insert(key@, value@)[k2] by {
                        let j = choose|j: int| 0 <= j < after.len() && (#[trigger] after[j]).0@ == k2;
                        lemma_entry_value(after, j);
                        if j < n {
                            assert(before[j].0@ == k2);
                            lemma_entry_value(before, j);
                        }
                    }
                    assert(self@ =~= old(self)@.insert(key@, value@));
                }
            },
        }
    }

    /// The value stored under `key`, if any.
    pub fn lookup(&self, key: &[u8]) -> (r: Option<&Vec<u8>>)
        ensures
            r matches Some(v) ==> self@.contains_key(key@) && v@ == self@[key@],
            r is None ==> !self@.contains_key(key@),
    {
        proof {
            use_type_invariant(self);
        }
        match self.find(key) {
            Some(i) => {
                proof {
                    lemma_entry_value(self.entries@, i as int);
                }
                Some(&self.entries[i].1)
            },
            None => None,
        }
    }
}

/// Whether a `set` is refused: a null key, or null data with a non-zero
/// length.
pub open spec fn set_refused(key: Option<&[u8]>, data: Option<&[u8]>, len: usize) -> bool {
    key is None || (data is None && len > 0)
}

/// Store `len` bytes of `data` under `key`.
///
/// A null key is refused, and so is null data unless `len` is 0; a refused
/// `set` changes nothing and returns `false`. Otherwise the first `len`
/// bytes of `data` (none when `len` is 0) replace whatever was stored under
/// the key, and the result is `true`.
pub fn plugin_set(store: &mut PluginStore, key: Option<&[u8]>, data: Option<&[u8]>, len: usize) -> (r:
    bool)
    requires
        data matches Some(d) ==> len <= d.len(),
    ensures
        r == !set_refused(key, data, len),
        set_refused(key, data, len) ==> final(store)@ == old(store)@,
        !set_refused(key, data, len) ==> final(store)@ == old(store)@.insert(
            key.unwrap()@,
            if len == 0 {
                Seq::empty()
            } else {
                data.unwrap()@.subrange(0, len as int)
            },
        ),
{
    match key {
        None => false,
        Some(k) => {
            let value = match data {
                None => {
                    if len > 0 {
                        return false;
                    }
                    Vec::new()
                },
                Some(d) => {
                    if len == 0 {
                        Vec::new()
                    } else {
                        let v = copy_bytes(vstd::slice::slice_subrange(d, 0, len));
                        v
                    }
                },
            };
            proof {
                if len == 0 {
                    assert(value@ =~= Seq::<u8>::empty());
                }
            }
            store.insert(k, value);
            true
        },
    }
}

/// The reply a `get` of `key` gives, with a buffer present or not and a
/// capacity in the length out-parameter (`None` for a null one).
///
/// A null key or length out-parameter, or an unknown key, is `NotFound`
/// with nothing written. For a known key the stored length is written; the
/// bytes are copied and the status is `Success` only when a buffer is
/// present and its capacity is at least that length, and the status is
/// `BufferTooSmall` otherwise.
pub open spec fn get_reply(
    store: Map<Seq<u8>, Seq<u8>>,
    key: Option<&[u8]>,
    buffer_present: bool,
    capacity: Option<usize>,
    r: PluginGetReply,
) -> bool {
    if key is None || capacity is None || !store.contains_key(key.unwrap()@) {
        r.status == PluginGetStatus::NotFound && r.written_len is None && r.data is None
    } else {
        let stored = store[key.unwrap()@];
        &&& r.written_len == Some(stored.len() as usize)
        &&& if buffer_present && capacity.unwrap() >= stored.len() {
            r.status == PluginGetStatus::Success && (r.data matches Some(d) && d@ == stored)
        } else {
            r.status == PluginGetStatus::BufferTooSmall && r.data is None
        }
    }
}

/// Read the value stored under `key`, see [`get_reply`].
pub fn plugin_get(
    store: &PluginStore,
    key: Option<&[u8]>,
    buffer_present: bool,
    capacity: Option<usize>,
) -> (r: PluginGetReply)
    ensures
        get_reply(store@, key, buffer_present, capacity, r),
{
    let not_found = PluginGetReply { status: PluginGetStatus::NotFound, written_len: None, data: None };
    let k = match key {
        None => {
            return not_found;
        },
        Some(k) => k,
    };
    let provided = match capacity {
        None => {
            return not_found;
        },
        Some(c) => c,
    };
    match store.lookup(k) {
        None => not_found,
        Some(val) => {
            let required = val.len();
            if !buffer_present || provided < required {
                PluginGetReply {
                    status: PluginGetStatus::BufferTooSmall,
                    written_len: Some(required),
                    data: None,
                }
            } else {
                PluginGetReply {
                    status: PluginGetStatus::Success,
                    written_len: Some(required),
                    data: Some(copy_bytes(val.as_slice())),
                }
            }
        },
    }
}

/// What a `set` stores: a `get` of the same key afterwards, with a buffer
/// at least as large, succeeds and hands back exactly those bytes; with a
/// smaller buffer or none it reports the size needed.
pub proof fn lemma_get_after_set(
    before: Map<Seq<u8>, Seq<u8>>,
    key: &[u8],
    data: Option<&[u8]>,
    len: usize,
    buffer_present: bool,
    capacity: usize,
    r: PluginGetReply,
)
    requires
        data matches Some(d) ==> len <= d.len(),
        !set_refused(Some(key), data, len),
        get_reply(
            before.insert(
                key@,
                if len == 0 {
                    Seq::empty()
                } else {
                    data.unwrap()@.subrange(0, len as int)
                },
            ),
            Some(key),
            buffer_present,
            Some(capacity),
            r,
        ),
    ensures
        r.written_len == Some(len),
        buffer_present && capacity >= len ==> r.status == PluginGetStatus::Success && (
        r.data matches Some(d) && d@ == (if len == 0 {
            Seq::empty()
        } else {
            data.unwrap()@.subrange(0, len as int)
        })),
        !(buffer_present && capacity >= len) ==> r.status == PluginGetStatus::BufferTooSmall,
{
}

/// A `set` of one key leaves what a `get` of any other key answers as it
/// was.
pub proof fn lemma_set_leaves_other_keys(
    before: Map<Seq<u8>, Seq<u8>>,
    key: Seq<u8>,
    value: Seq<u8>,
    other: &[u8],
    buffer_present: bool,
    capacity: Option<usize>,
    r_before: PluginGetReply,
    r_after: PluginGetReply,
)
    requires
        other@ != key,
        get_reply(before, Some(other), buffer_present, capacity, r_before),
        get_reply(before.insert(key, value), Some(other), buffer_present, capacity, r_after),
    ensures
        r_after.status == r_before.status,
        r_after.written_len == r_before.written_len,
        r_after.data is Some <==> r_before.data is Some,
        r_after.data matches Some(d) ==> d@ == r_before.data->0@,
{
}

} // verus!
