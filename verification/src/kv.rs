//! Internal association lists keyed by `u64`.
//!
//! Both the resource registry and a scene's callback table are stored as a
//! vector of key/value pairs and abstracted as a `Map`. The abstraction is
//! "first match wins": a lookup scans from the front, so if a key ever
//! occurred twice, only the first occurrence would be visible. The operations
//! below never create a duplicate, but the abstraction does not depend on
//! that.

use vstd::prelude::*;

verus! {

/// The map described by an association list, earlier pairs shadowing later
/// ones.
pub(crate) open spec fn kv_map<T>(s: Seq<(u64, T)>) -> Map<u64, T>
    decreases s.len(),
{
    if s.len() == 0 {
        Map::empty()
    } else {
        kv_map(s.drop_first()).insert(s[0].0, s[0].1)
    }
}

/// The first occurrence of a key is the one the map abstraction shows.
pub(crate) proof fn lemma_kv_map_first<T>(s: Seq<(u64, T)>, i: int)
    requires
        0 <= i < s.len(),
        forall|j: int| 0 <= j < i ==> s[j].0 != s[i].0,
    ensures
        kv_map(s).dom().contains(s[i].0),
        kv_map(s)[s[i].0] == s[i].1,
    decreases s.len(),
{
    if i > 0 {
        lemma_kv_map_first(s.drop_first(), i - 1);
    }
}

/// A key that occurs nowhere in the list is not in the map abstraction.
pub(crate) proof fn lemma_kv_map_absent<T>(s: Seq<(u64, T)>, key: u64)
    requires
        forall|j: int| 0 <= j < s.len() ==> s[j].0 != key,
    ensures
        !kv_map(s).dom().contains(key),
    decreases s.len(),
{
    if s.len() > 0 {
        lemma_kv_map_absent(s.drop_first(), key);
    }
}

/// Replacing the value at the first occurrence of a key updates the map
/// abstraction at that key.
pub(crate) proof fn lemma_kv_map_update<T>(s: Seq<(u64, T)>, i: int, v: T)
    requires
        0 <= i < s.len(),
        forall|j: int| 0 <= j < i ==> s[j].0 != s[i].0,
    ensures
        kv_map(s.update(i, (s[i].0, v))) == kv_map(s).insert(s[i].0, v),
    decreases s.len(),
{
    let t = s.update(i, (s[i].0, v));
    if i == 0 {
        assert(t.drop_first() =~= s.drop_first());
        assert(kv_map(t) =~= kv_map(s).insert(s[0].0, v));
    } else {
        lemma_kv_map_update(s.drop_first(), i - 1, v);
        assert(t.drop_first() =~= s.drop_first().update(i - 1, (s[i].0, v)));
        assert(kv_map(t) =~= kv_map(s).insert(s[i].0, v));
    }
}

/// Appending a pair whose key is absent updates the map abstraction at that
/// key.
pub(crate) proof fn lemma_kv_map_push<T>(s: Seq<(u64, T)>, key: u64, v: T)
    requires
        forall|j: int| 0 <= j < s.len() ==> s[j].0 != key,
    ensures
        kv_map(s.push((key, v))) == kv_map(s).insert(key, v),
    decreases s.len(),
{
    let t = s.push((key, v));
    if s.len() == 0 {
        assert(t.drop_first() =~= Seq::<(u64, T)>::empty());
        assert(kv_map(t.drop_first()) =~= Map::<u64, T>::empty());
        assert(kv_map(t) =~= kv_map(s).insert(key, v));
    } else {
        lemma_kv_map_push(s.drop_first(), key, v);
        assert(t.drop_first() =~= s.drop_first().push((key, v)));
        assert(kv_map(t) =~= kv_map(s).insert(key, v));
    }
}

/// Insert or replace: overwrite the first pair holding `key`, or append one
/// if the key is absent.
pub(crate) fn kv_insert<T>(entries: &mut Vec<(u64, T)>, key: u64, v: T)
    ensures
        kv_map(final(entries)@) == kv_map(old(entries)@).insert(key, v),
{
    match kv_find(entries, key) {
        Some(i) => {
            proof {
                lemma_kv_map_update(entries@, i as int, v);
            }
            entries[i] = (key, v);
        },
        None => {
            proof {
                lemma_kv_map_push(entries@, key, v);
            }
            entries.push((key, v));
        },
    }
}

/// Scan for the first pair holding `key`.
pub(crate) fn kv_find<T>(entries: &Vec<(u64, T)>, key: u64) -> (r: Option<usize>)
    ensures
        match r {
            Some(i) => {
                &&& (i as int) < entries@.len()
                &&& entries@[i as int].0 == key
                &&& forall|j: int| 0 <= j < i as int ==> entries@[j].0 != key
                &&& kv_map(entries@).dom().contains(key)
                &&& kv_map(entries@)[key] == entries@[i as int].1
            },
            None => {
                &&& forall|j: int| 0 <= j < entries@.len() ==> entries@[j].0 != key
                &&& !kv_map(entries@).dom().contains(key)
            },
        },
{
    let mut i: usize = 0;
    while i < entries.len()
        invariant
            i <= entries@.len(),
            forall|j: int| 0 <= j < i as int ==> entries@[j].0 != key,
        decreases entries@.len() - i as int,
    {
        if entries[i].0 == key {
            proof {
                lemma_kv_map_first(entries@, i as int);
            }
            return Some(i);
        }
        i += 1;
    }
    proof {
        lemma_kv_map_absent(entries@, key);
    }
    None
}

} // verus!
