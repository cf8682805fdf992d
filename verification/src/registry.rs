//! The heterogeneous resource registry.
//!
//! A registry maps a [`TypeKey`] to one owned, type-erased resource. The
//! payload type `V` is chosen by the embedder (typically an enum over every
//! resource type a scene uses); a [`Resource`] pairs one payload with the key
//! of the type it claims to be, playing the role of a type-tagged box.
//! Lookups check that claim defensively instead of assuming it.

use vstd::prelude::*;

use crate::error::Error;
use crate::kv::{kv_find, kv_map, lemma_kv_map_update};

verus! {

/// A value uniquely identifying a concrete resource type within one process.
///
/// Two distinct resource types must never share a key, and the same type
/// must always use the same key; keeping that discipline is the embedder's
/// registration duty.
pub type TypeKey = u64;

/// An owned, type-erased resource: a payload together with the key of the
/// type the payload claims to be.
pub struct Resource<V> {
    /// The type key the payload claims.
    pub tag: TypeKey,
    /// The payload itself.
    pub value: V,
}

impl<V> Resource<V> {
    /// Pair a payload with its type key.
    pub fn new(tag: TypeKey, value: V) -> (r: Self)
        ensures
            r == (Resource { tag, value }),
    {
        Resource { tag, value }
    }
}

/// A mapping from type keys to owned resources.
///
/// At most one resource is held per key; inserting a second one silently
/// replaces the first. No operation removes an entry.
pub struct Registry<V> {
    entries: Vec<(TypeKey, Resource<V>)>,
}

impl<V> View for Registry<V> {
    type V = Map<TypeKey, Resource<V>>;

    closed spec fn view(&self) -> Map<TypeKey, Resource<V>> {
        kv_map(self.entries@)
    }
}

impl<V> Registry<V> {
    /// An empty registry.
    pub fn new() -> (r: Self)
        ensures
            r@ == Map::<TypeKey, Resource<V>>::empty(),
    {
        Registry { entries: Vec::new() }
    }

    /// Insert or replace the entry at `key`.
    ///
    /// The key and the resource's own tag are recorded independently, as a
    /// raw map insertion would record them; a lookup later checks that they
    /// agree.
    pub fn insert(&mut self, key: TypeKey, res: Resource<V>)
        ensures
            final(self)@ == old(self)@.insert(key, res),
    {
        crate::kv::kv_insert(&mut self.entries, key, res);
    }
}

/// What a typed lookup returns on a given registry state: the payload at
/// `key`, a missing-resource failure, or a mismatch failure when the entry's
/// recorded tag disagrees with the key it is filed under.
pub open spec fn spec_get_res<V>(m: Map<TypeKey, Resource<V>>, key: TypeKey) -> Result<V, Error> {
    if !m.dom().contains(key) {
        Err(Error::MissingResource)
    } else if m[key].tag != key {
        Err(Error::TypeMismatch)
    } else {
        Ok(m[key].value)
    }
}

/// Look up the resource filed under `key` and recover a shared borrow of its
/// payload.
pub fn get_res<V>(data: &Registry<V>, key: TypeKey) -> (r: Result<&V, Error>)
    ensures
        match r {
            Ok(v) => spec_get_res(data@, key) == Ok::<V, Error>(*v),
            Err(e) => spec_get_res(data@, key) == Err::<V, Error>(e),
        },
{
    match kv_find(&data.entries, key) {
        None => Err(Error::MissingResource),
        Some(i) => {
            if data.entries[i].1.tag != key {
                Err(Error::TypeMismatch)
            } else {
                Ok(&data.entries[i].1.value)
            }
        },
    }
}

/// Look up the resource filed under `key` and recover a mutable borrow of its
/// payload. On failure the registry is left unchanged.
pub fn get_res_mut<V>(data: &mut Registry<V>, key: TypeKey) -> (r: Result<&mut V, Error>)
    ensures
        r is Ok ==> {
            &&& spec_get_res(old(data)@, key) == Ok::<V, Error>(*r->Ok_0)
            &&& final(data)@ == old(data)@.insert(
                key,
                (Resource { tag: key, value: *final(r->Ok_0) }),
            )
        },
        r is Err ==> {
            &&& spec_get_res(old(data)@, key) == Err::<V, Error>(r->Err_0)
            &&& final(data)@ == old(data)@
        },
{
    match kv_find(&data.entries, key) {
        None => Err(Error::MissingResource),
        Some(i) => {
            if data.entries[i].1.tag != key {
                Err(Error::TypeMismatch)
            } else {
                let v = &mut data.entries[i].1.value;
                proof {
                    lemma_kv_map_update(
                        old(data).entries@,
                        i as int,
                        (Resource { tag: key, value: *final(v) }),
                    );
                }
                Ok(v)
            }
        },
    }
}

/// Putting a resource and looking it up under its own type key immediately
/// after returns exactly the payload that was put, whatever the registry
/// held before.
pub proof fn lemma_put_then_get<V>(m: Map<TypeKey, Resource<V>>, res: Resource<V>)
    ensures
        spec_get_res(m.insert(res.tag, res), res.tag) == Ok::<V, Error>(res.value),
{
}

/// On an empty registry, every typed lookup fails with the missing-resource
/// condition.
pub proof fn lemma_get_on_empty<V>(key: TypeKey)
    ensures
        spec_get_res(Map::<TypeKey, Resource<V>>::empty(), key) == Err::<V, Error>(
            Error::MissingResource,
        ),
{
}

/// What a read/write pair access returns on a given registry state: the two
/// payloads, or the first failure met while checking the request. The keys
/// are compared before either slot is examined, then the read slot is
/// checked, then the write slot.
pub open spec fn spec_pair_access<V>(
    m: Map<TypeKey, Resource<V>>,
    ref_key: TypeKey,
    mut_key: TypeKey,
) -> Result<(V, V), Error> {
    if ref_key == mut_key {
        Err(Error::DuplicateTypeInMultiAccess)
    } else {
        match (spec_get_res(m, ref_key), spec_get_res(m, mut_key)) {
            (Err(e), _) => Err(e),
            (_, Err(e)) => Err(e),
            (Ok(a), Ok(b)) => Ok((a, b)),
        }
    }
}

/// A granted pair access never aliases: writing any payload whatever
/// through the mutable half leaves the slot read through the shared half
/// exactly as it was.
pub proof fn lemma_pair_access_no_alias<V>(
    m: Map<TypeKey, Resource<V>>,
    ref_key: TypeKey,
    mut_key: TypeKey,
    w: V,
)
    requires
        spec_pair_access(m, ref_key, mut_key) is Ok,
    ensures
        m.insert(mut_key, Resource { tag: mut_key, value: w })[ref_key] == m[ref_key],
        spec_get_res(m.insert(mut_key, Resource { tag: mut_key, value: w }), ref_key)
            == spec_get_res(m, ref_key),
{
}

/// A multi-access request that names one type key twice fails the
/// distinctness check, whatever the registry holds; no borrow is involved.
pub proof fn lemma_pair_access_duplicate<V>(m: Map<TypeKey, Resource<V>>, key: TypeKey)
    ensures
        spec_pair_access(m, key, key) == Err::<(V, V), Error>(Error::DuplicateTypeInMultiAccess),
{
}

/// Borrow two distinct resource slots at once: the slot at `ref_key` shared,
/// the slot at `mut_key` mutable.
///
/// The request is rejected before any borrow is produced if the two keys are
/// equal; given distinct keys the two borrows come from disjoint entries, so
/// writing through the mutable one can never be seen through the shared one.
/// On failure the registry is left unchanged; on success only the entry at
/// `mut_key` can change, and only to whatever the caller writes through the
/// mutable borrow.
pub fn get_ref_and_mut<V>(data: &mut Registry<V>, ref_key: TypeKey, mut_key: TypeKey) -> (r:
    Result<(&V, &mut V), Error>)
    ensures
        r is Ok ==> {
            &&& spec_pair_access(old(data)@, ref_key, mut_key) == Ok::<(V, V), Error>(
                (*r->Ok_0.0, *r->Ok_0.1),
            )
            &&& final(data)@ == old(data)@.insert(
                mut_key,
                (Resource { tag: mut_key, value: *final(r->Ok_0.1) }),
            )
        },
        r is Err ==> {
            &&& spec_pair_access(old(data)@, ref_key, mut_key) == Err::<(V, V), Error>(r->Err_0)
            &&& final(data)@ == old(data)@
        },
{
    if ref_key == mut_key {
        return Err(Error::DuplicateTypeInMultiAccess);
    }
    let i = match kv_find(&data.entries, ref_key) {
        None => {
            return Err(Error::MissingResource);
        },
        Some(i) => i,
    };
    if data.entries[i].1.tag != ref_key {
        return Err(Error::TypeMismatch);
    }
    let j = match kv_find(&data.entries, mut_key) {
        None => {
            return Err(Error::MissingResource);
        },
        Some(j) => j,
    };
    if data.entries[j].1.tag != mut_key {
        return Err(Error::TypeMismatch);
    }
    let ghost s = data.entries@;
    let ghost n = s.len() as int;
    proof {
        // The registry view after replacing the write slot's payload, for
        // whatever payload the caller ends up writing.
        assert forall|x: Resource<V>|
            kv_map(s.update(j as int, (mut_key, x))) == kv_map(s).insert(mut_key, x) by {
            lemma_kv_map_update(s, j as int, x);
        }
    }
    if i < j {
        proof {
            assert forall|p: (u64, Resource<V>)|
                s.subrange(0, j as int) + s.subrange(j as int, n).update(0, p) == s.update(
                    j as int,
                    p,
                ) by {
                assert(s.subrange(0, j as int) + s.subrange(j as int, n).update(0, p) =~= s.update(
                    j as int,
                    p,
                ));
            }
        }
        let (lo, hi) = data.entries.as_mut_slice().split_at_mut(j);
        let a = &lo[i].1.value;
        let e = match hi.first_mut() {
            Some(e) => e,
            None => unreached(),
        };
        let b = &mut e.1.value;
        Ok((a, b))
    } else {
        proof {
            assert forall|p: (u64, Resource<V>)|
                (s.subrange(0, i as int).subrange(0, j as int) + s.subrange(0, i as int).subrange(
                    j as int,
                    i as int,
                ).update(0, p)) + s.subrange(i as int, n) == s.update(j as int, p) by {
                assert((s.subrange(0, i as int).subrange(0, j as int) + s.subrange(
                    0,
                    i as int,
                ).subrange(j as int, i as int).update(0, p)) + s.subrange(i as int, n) =~= s.update(
                    j as int,
                    p,
                ));
            }
        }
        let (lo, hi) = data.entries.as_mut_slice().split_at_mut(i);
        let a = &hi[0].1.value;
        let (l1, l2) = lo.split_at_mut(j);
        let e = match l2.first_mut() {
            Some(e) => e,
            None => unreached(),
        };
        let b = &mut e.1.value;
        Ok((a, b))
    }
}

/// A mutable borrow of one slice element, with the rest of the slice kept
/// intact around it.
fn slice_one_mut<T>(s: &mut [T], i: usize) -> (r: &mut T)
    requires
        i < old(s).len(),
    ensures
        *r == old(s)[i as int],
        final(s)@ == old(s)@.update(i as int, *final(r)),
{
    let ghost s0 = s@;
    proof {
        assert forall|p: T|
            s0.subrange(0, i as int) + s0.subrange(i as int, s0.len() as int).update(0, p)
                == s0.update(i as int, p) by {
            assert(s0.subrange(0, i as int) + s0.subrange(i as int, s0.len() as int).update(0, p)
                =~= s0.update(i as int, p));
        }
    }
    let (_lo, hi) = s.split_at_mut(i);
    match hi.first_mut() {
        Some(e) => e,
        None => unreached(),
    }
}

/// Mutable borrows of two distinct slice elements at once.
fn slice_two_muts<T>(s: &mut [T], i: usize, j: usize) -> (r: (&mut T, &mut T))
    requires
        i < old(s).len(),
        j < old(s).len(),
        i != j,
    ensures
        *r.0 == old(s)[i as int],
        *r.1 == old(s)[j as int],
        final(s)@ == old(s)@.update(i as int, *final(r.0)).update(j as int, *final(r.1)),
{
    let ghost s0 = s@;
    if i < j {
        proof {
            assert forall|p: T, q: T|
                s0.subrange(0, j as int).update(i as int, p) + s0.subrange(
                    j as int,
                    s0.len() as int,
                ).update(0, q) == s0.update(i as int, p).update(j as int, q) by {
                assert(s0.subrange(0, j as int).update(i as int, p) + s0.subrange(
                    j as int,
                    s0.len() as int,
                ).update(0, q) =~= s0.update(i as int, p).update(j as int, q));
            }
        }
        let (lo, hi) = s.split_at_mut(j);
        let e_j = match hi.first_mut() {
            Some(e) => e,
            None => unreached(),
        };
        let e_i = slice_one_mut(lo, i);
        (e_i, e_j)
    } else {
        proof {
            assert forall|p: T, q: T|
                s0.subrange(0, i as int).update(j as int, q) + s0.subrange(
                    i as int,
                    s0.len() as int,
                ).update(0, p) == s0.update(i as int, p).update(j as int, q) by {
                assert(s0.subrange(0, i as int).update(j as int, q) + s0.subrange(
                    i as int,
                    s0.len() as int,
                ).update(0, p) =~= s0.update(i as int, p).update(j as int, q));
            }
        }
        let (lo, hi) = s.split_at_mut(i);
        let e_i = match hi.first_mut() {
            Some(e) => e,
            None => unreached(),
        };
        let e_j = slice_one_mut(lo, j);
        (e_i, e_j)
    }
}

/// Borrow the slots at two distinct keys mutably at the same time.
///
/// The request is rejected before any borrow is produced if the two keys
/// are equal; given distinct keys the two borrows come from disjoint
/// entries. On failure the registry is left unchanged; on success each of
/// the two slots holds whatever the caller leaves in its borrow, and no
/// other entry changes.
pub fn get_two_muts<V>(data: &mut Registry<V>, key1: TypeKey, key2: TypeKey) -> (r: Result<
    (&mut V, &mut V),
    Error,
>)
    ensures
        r is Ok ==> {
            &&& spec_pair_access(old(data)@, key1, key2) == Ok::<(V, V), Error>(
                (*r->Ok_0.0, *r->Ok_0.1),
            )
            &&& final(data)@ == old(data)@.insert(
                key1,
                (Resource { tag: key1, value: *final(r->Ok_0.0) }),
            ).insert(key2, (Resource { tag: key2, value: *final(r->Ok_0.1) }))
        },
        r is Err ==> {
            &&& spec_pair_access(old(data)@, key1, key2) == Err::<(V, V), Error>(r->Err_0)
            &&& final(data)@ == old(data)@
        },
{
    if key1 == key2 {
        return Err(Error::DuplicateTypeInMultiAccess);
    }
    let i = match kv_find(&data.entries, key1) {
        None => {
            return Err(Error::MissingResource);
        },
        Some(i) => i,
    };
    if data.entries[i].1.tag != key1 {
        return Err(Error::TypeMismatch);
    }
    let j = match kv_find(&data.entries, key2) {
        None => {
            return Err(Error::MissingResource);
        },
        Some(j) => j,
    };
    if data.entries[j].1.tag != key2 {
        return Err(Error::TypeMismatch);
    }
    let ghost s = data.entries@;
    proof {
        assert forall|x: Resource<V>, y: Resource<V>|
            kv_map(s.update(i as int, (key1, x)).update(j as int, (key2, y))) == kv_map(s).insert(
                key1,
                x,
            ).insert(key2, y) by {
            lemma_kv_map_update(s, i as int, x);
            lemma_kv_map_update(s.update(i as int, (key1, x)), j as int, y);
        }
    }
    let (e1, e2) = slice_two_muts(data.entries.as_mut_slice(), i, j);
    Ok((&mut e1.1.value, &mut e2.1.value))
}

/// Mutable borrows of three distinct slice elements at once.
fn slice_three_muts<T>(s: &mut [T], i: usize, j: usize, k: usize) -> (r: (&mut T, &mut T, &mut T))
    requires
        i < old(s).len(),
        j < old(s).len(),
        k < old(s).len(),
        i != j,
        i != k,
        j != k,
    ensures
        *r.0 == old(s)[i as int],
        *r.1 == old(s)[j as int],
        *r.2 == old(s)[k as int],
        final(s)@ == old(s)@.update(i as int, *final(r.0)).update(j as int, *final(r.1)).update(
            k as int,
            *final(r.2),
        ),
{
    let ghost s0 = s@;
    let ghost n = s0.len() as int;
    if i > j && i > k {
        proof {
            assert forall|p: T, q: T, w: T|
                s0.subrange(0, i as int).update(j as int, q).update(k as int, w) + s0.subrange(
                    i as int,
                    n,
                ).update(0, p) == s0.update(i as int, p).update(j as int, q).update(
                    k as int,
                    w,
                ) by {
                assert(s0.subrange(0, i as int).update(j as int, q).update(k as int, w)
                    + s0.subrange(i as int, n).update(0, p) =~= s0.update(i as int, p).update(
                    j as int,
                    q,
                ).update(k as int, w));
            }
        }
        let (lo, hi) = s.split_at_mut(i);
        let e_i = match hi.first_mut() {
            Some(e) => e,
            None => unreached(),
        };
        let (e_j, e_k) = slice_two_muts(lo, j, k);
        (e_i, e_j, e_k)
    } else if j > i && j > k {
        proof {
            assert forall|p: T, q: T, w: T|
                s0.subrange(0, j as int).update(i as int, p).update(k as int, w) + s0.subrange(
                    j as int,
                    n,
                ).update(0, q) == s0.update(i as int, p).update(j as int, q).update(
                    k as int,
                    w,
                ) by {
                assert(s0.subrange(0, j as int).update(i as int, p).update(k as int, w)
                    + s0.subrange(j as int, n).update(0, q) =~= s0.update(i as int, p).update(
                    j as int,
                    q,
                ).update(k as int, w));
            }
        }
        let (lo, hi) = s.split_at_mut(j);
        let e_j = match hi.first_mut() {
            Some(e) => e,
            None => unreached(),
        };
        let (e_i, e_k) = slice_two_muts(lo, i, k);
        (e_i, e_j, e_k)
    } else {
        proof {
            assert forall|p: T, q: T, w: T|
                s0.subrange(0, k as int).update(i as int, p).update(j as int, q) + s0.subrange(
                    k as int,
                    n,
                ).update(0, w) == s0.update(i as int, p).update(j as int, q).update(
                    k as int,
                    w,
                ) by {
                assert(s0.subrange(0, k as int).update(i as int, p).update(j as int, q)
                    + s0.subrange(k as int, n).update(0, w) =~= s0.update(i as int, p).update(
                    j as int,
                    q,
                ).update(k as int, w));
            }
        }
        let (lo, hi) = s.split_at_mut(k);
        let e_k = match hi.first_mut() {
            Some(e) => e,
            None => unreached(),
        };
        let (e_i, e_j) = slice_two_muts(lo, i, j);
        (e_i, e_j, e_k)
    }
}

/// What a three-key write access returns on a given registry state: the
/// three payloads, or the first failure met while checking the request.
pub open spec fn spec_multi_access3<V>(
    m: Map<TypeKey, Resource<V>>,
    k1: TypeKey,
    k2: TypeKey,
    k3: TypeKey,
) -> Result<(V, V, V), Error> {
    if k1 == k2 || k1 == k3 || k2 == k3 {
        Err(Error::DuplicateTypeInMultiAccess)
    } else {
        match (spec_get_res(m, k1), spec_get_res(m, k2), spec_get_res(m, k3)) {
            (Err(e), _, _) => Err(e),
            (_, Err(e), _) => Err(e),
            (_, _, Err(e)) => Err(e),
            (Ok(a), Ok(b), Ok(c)) => Ok((a, b, c)),
        }
    }
}

/// Borrow the slots at three pairwise distinct keys mutably at the same
/// time; the same contract shape as [`get_two_muts`], one slot more.
pub fn get_three_muts<V>(data: &mut Registry<V>, key1: TypeKey, key2: TypeKey, key3: TypeKey) -> (r:
    Result<(&mut V, &mut V, &mut V), Error>)
    ensures
        r is Ok ==> {
            &&& spec_multi_access3(old(data)@, key1, key2, key3) == Ok::<(V, V, V), Error>(
                (*r->Ok_0.0, *r->Ok_0.1, *r->Ok_0.2),
            )
            &&& final(data)@ == old(data)@.insert(
                key1,
                (Resource { tag: key1, value: *final(r->Ok_0.0) }),
            ).insert(key2, (Resource { tag: key2, value: *final(r->Ok_0.1) })).insert(
                key3,
                (Resource { tag: key3, value: *final(r->Ok_0.2) }),
            )
        },
        r is Err ==> {
            &&& spec_multi_access3(old(data)@, key1, key2, key3) == Err::<(V, V, V), Error>(
                r->Err_0,
            )
            &&& final(data)@ == old(data)@
        },
{
    if key1 == key2 || key1 == key3 || key2 == key3 {
        return Err(Error::DuplicateTypeInMultiAccess);
    }
    let i = match kv_find(&data.entries, key1) {
        None => {
            return Err(Error::MissingResource);
        },
        Some(i) => i,
    };
    if data.entries[i].1.tag != key1 {
        return Err(Error::TypeMismatch);
    }
    let j = match kv_find(&data.entries, key2) {
        None => {
            return Err(Error::MissingResource);
        },
        Some(j) => j,
    };
    if data.entries[j].1.tag != key2 {
        return Err(Error::TypeMismatch);
    }
    let k = match kv_find(&data.entries, key3) {
        None => {
            return Err(Error::MissingResource);
        },
        Some(k) => k,
    };
    if data.entries[k].1.tag != key3 {
        return Err(Error::TypeMismatch);
    }
    let ghost s = data.entries@;
    proof {
        assert forall|x: Resource<V>, y: Resource<V>, z: Resource<V>|
            kv_map(
                s.update(i as int, (key1, x)).update(j as int, (key2, y)).update(
                    k as int,
                    (key3, z),
                ),
            ) == kv_map(s).insert(key1, x).insert(key2, y).insert(key3, z) by {
            lemma_kv_map_update(s, i as int, x);
            lemma_kv_map_update(s.update(i as int, (key1, x)), j as int, y);
            lemma_kv_map_update(
                s.update(i as int, (key1, x)).update(j as int, (key2, y)),
                k as int,
                z,
            );
        }
    }
    let (e1, e2, e3) = slice_three_muts(data.entries.as_mut_slice(), i, j, k);
    Ok((&mut e1.1.value, &mut e2.1.value, &mut e3.1.value))
}

/// Mutable borrows of four distinct slice elements at once.
fn slice_four_muts<T>(s: &mut [T], i: usize, j: usize, k: usize, l: usize) -> (r: (
    &mut T,
    &mut T,
    &mut T,
    &mut T,
))
    requires
        i < old(s).len(),
        j < old(s).len(),
        k < old(s).len(),
        l < old(s).len(),
        i != j,
        i != k,
        i != l,
        j != k,
        j != l,
        k != l,
    ensures
        *r.0 == old(s)[i as int],
        *r.1 == old(s)[j as int],
        *r.2 == old(s)[k as int],
        *r.3 == old(s)[l as int],
        final(s)@ == old(s)@.update(i as int, *final(r.0)).update(j as int, *final(r.1)).update(
            k as int,
            *final(r.2),
        ).update(l as int, *final(r.3)),
{
    let ghost s0 = s@;
    let ghost n = s0.len() as int;
    if i > j && i > k && i > l {
        proof {
            assert forall|p: T, q: T, w: T, v: T|
                s0.subrange(0, i as int).update(j as int, q).update(k as int, w).update(
                    l as int,
                    v,
                ) + s0.subrange(i as int, n).update(0, p) == s0.update(i as int, p).update(
                    j as int,
                    q,
                ).update(k as int, w).update(l as int, v) by {
                assert(s0.subrange(0, i as int).update(j as int, q).update(k as int, w).update(
                    l as int,
                    v,
                ) + s0.subrange(i as int, n).update(0, p) =~= s0.update(i as int, p).update(
                    j as int,
                    q,
                ).update(k as int, w).update(l as int, v));
            }
        }
        let (lo, hi) = s.split_at_mut(i);
        let e_i = match hi.first_mut() {
            Some(e) => e,
            None => unreached(),
        };
        let (e_j, e_k, e_l) = slice_three_muts(lo, j, k, l);
        (e_i, e_j, e_k, e_l)
    } else if j > i && j > k && j > l {
        proof {
            assert forall|p: T, q: T, w: T, v: T|
                s0.subrange(0, j as int).update(i as int, p).update(k as int, w).update(
                    l as int,
                    v,
                ) + s0.subrange(j as int, n).update(0, q) == s0.update(i as int, p).update(
                    j as int,
                    q,
                ).update(k as int, w).update(l as int, v) by {
                assert(s0.subrange(0, j as int).update(i as int, p).update(k as int, w).update(
                    l as int,
                    v,
                ) + s0.subrange(j as int, n).update(0, q) =~= s0.update(i as int, p).update(
                    j as int,
                    q,
                ).update(k as int, w).update(l as int, v));
            }
        }
        let (lo, hi) = s.split_at_mut(j);
        let e_j = match hi.first_mut() {
            Some(e) => e,
            None => unreached(),
        };
        let (e_i, e_k, e_l) = slice_three_muts(lo, i, k, l);
        (e_i, e_j, e_k, e_l)
    } else if k > i && k > j && k > l {
        proof {
            assert forall|p: T, q: T, w: T, v: T|
                s0.subrange(0, k as int).update(i as int, p).update(j as int, q).update(
                    l as int,
                    v,
                ) + s0.subrange(k as int, n).update(0, w) == s0.update(i as int, p).update(
                    j as int,
                    q,
                ).update(k as int, w).update(l as int, v) by {
                assert(s0.subrange(0, k as int).update(i as int, p).update(j as int, q).update(
                    l as int,
                    v,
                ) + s0.subrange(k as int, n).update(0, w) =~= s0.update(i as int, p).update(
                    j as int,
                    q,
                ).update(k as int, w).update(l as int, v));
            }
        }
        let (lo, hi) = s.split_at_mut(k);
        let e_k = match hi.first_mut() {
            Some(e) => e,
            None => unreached(),
        };
        let (e_i, e_j, e_l) = slice_three_muts(lo, i, j, l);
        (e_i, e_j, e_k, e_l)
    } else {
        proof {
            assert forall|p: T, q: T, w: T, v: T|
                s0.subrange(0, l as int).update(i as int, p).update(j as int, q).update(
                    k as int,
                    w,
                ) + s0.subrange(l as int, n).update(0, v) == s0.update(i as int, p).update(
                    j as int,
                    q,
                ).update(k as int, w).update(l as int, v) by {
                assert(s0.subrange(0, l as int).update(i as int, p).update(j as int, q).update(
                    k as int,
                    w,
                ) + s0.subrange(l as int, n).update(0, v) =~= s0.update(i as int, p).update(
                    j as int,
                    q,
                ).update(k as int, w).update(l as int, v));
            }
        }
        let (lo, hi) = s.split_at_mut(l);
        let e_l = match hi.first_mut() {
            Some(e) => e,
            None => unreached(),
        };
        let (e_i, e_j, e_k) = slice_three_muts(lo, i, j, k);
        (e_i, e_j, e_k, e_l)
    }
}

/// What a four-key write access returns on a given registry state: the four
/// payloads, or the first failure met while checking the request.
pub open spec fn spec_multi_access4<V>(
    m: Map<TypeKey, Resource<V>>,
    k1: TypeKey,
    k2: TypeKey,
    k3: TypeKey,
    k4: TypeKey,
) -> Result<(V, V, V, V), Error> {
    if k1 == k2 || k1 == k3 || k1 == k4 || k2 == k3 || k2 == k4 || k3 == k4 {
        Err(Error::DuplicateTypeInMultiAccess)
    } else {
        match (
            spec_get_res(m, k1),
            spec_get_res(m, k2),
            spec_get_res(m, k3),
            spec_get_res(m, k4),
        ) {
            (Err(e), _, _, _) => Err(e),
            (_, Err(e), _, _) => Err(e),
            (_, _, Err(e), _) => Err(e),
            (_, _, _, Err(e)) => Err(e),
            (Ok(a), Ok(b), Ok(c), Ok(d)) => Ok((a, b, c, d)),
        }
    }
}

/// Borrow the slots at four pairwise distinct keys mutably at the same
/// time; the same contract shape as [`get_two_muts`], two slots more.
pub fn get_four_muts<V>(
    data: &mut Registry<V>,
    key1: TypeKey,
    key2: TypeKey,
    key3: TypeKey,
    key4: TypeKey,
) -> (r: Result<(&mut V, &mut V, &mut V, &mut V), Error>)
    ensures
        r is Ok ==> {
            &&& spec_multi_access4(old(data)@, key1, key2, key3, key4) == Ok::<
                (V, V, V, V),
                Error,
            >((*r->Ok_0.0, *r->Ok_0.1, *r->Ok_0.2, *r->Ok_0.3))
            &&& final(data)@ == old(data)@.insert(
                key1,
                (Resource { tag: key1, value: *final(r->Ok_0.0) }),
            ).insert(key2, (Resource { tag: key2, value: *final(r->Ok_0.1) })).insert(
                key3,
                (Resource { tag: key3, value: *final(r->Ok_0.2) }),
            ).insert(key4, (Resource { tag: key4, value: *final(r->Ok_0.3) }))
        },
        r is Err ==> {
            &&& spec_multi_access4(old(data)@, key1, key2, key3, key4) == Err::<
                (V, V, V, V),
                Error,
            >(r->Err_0)
            &&& final(data)@ == old(data)@
        },
{
    if key1 == key2 || key1 == key3 || key1 == key4 || key2 == key3 || key2 == key4 || key3
        == key4 {
        return Err(Error::DuplicateTypeInMultiAccess);
    }
    let i = match kv_find(&data.entries, key1) {
        None => {
            return Err(Error::MissingResource);
        },
        Some(i) => i,
    };
    if data.entries[i].1.tag != key1 {
        return Err(Error::TypeMismatch);
    }
    let j = match kv_find(&data.entries, key2) {
        None => {
            return Err(Error::MissingResource);
        },
        Some(j) => j,
    };
    if data.entries[j].1.tag != key2 {
        return Err(Error::TypeMismatch);
    }
    let k = match kv_find(&data.entries, key3) {
        None => {
            return Err(Error::MissingResource);
        },
        Some(k) => k,
    };
    if data.entries[k].1.tag != key3 {
        return Err(Error::TypeMismatch);
    }
    let l = match kv_find(&data.entries, key4) {
        None => {
            return Err(Error::MissingResource);
        },
        Some(l) => l,
    };
    if data.entries[l].1.tag != key4 {
        return Err(Error::TypeMismatch);
    }
    let ghost s = data.entries@;
    proof {
        assert forall|x: Resource<V>, y: Resource<V>, z: Resource<V>, u: Resource<V>|
            kv_map(
                s.update(i as int, (key1, x)).update(j as int, (key2, y)).update(
                    k as int,
                    (key3, z),
                ).update(l as int, (key4, u)),
            ) == kv_map(s).insert(key1, x).insert(key2, y).insert(key3, z).insert(key4, u) by {
            lemma_kv_map_update(s, i as int, x);
            lemma_kv_map_update(s.update(i as int, (key1, x)), j as int, y);
            lemma_kv_map_update(
                s.update(i as int, (key1, x)).update(j as int, (key2, y)),
                k as int,
                z,
            );
            lemma_kv_map_update(
                s.update(i as int, (key1, x)).update(j as int, (key2, y)).update(
                    k as int,
                    (key3, z),
                ),
                l as int,
                u,
            );
        }
    }
    let (e1, e2, e3, e4) = slice_four_muts(data.entries.as_mut_slice(), i, j, k, l);
    Ok((&mut e1.1.value, &mut e2.1.value, &mut e3.1.value, &mut e4.1.value))
}

/// Insert or replace the resource filed under its own type key.
///
/// This is the `put` operation: it always succeeds, and a previous resource
/// of the same type is dropped.
pub fn return_res<V>(data: &mut Registry<V>, new_data: Resource<V>)
    ensures
        final(data)@ == old(data)@.insert(new_data.tag, new_data),
{
    let tag = new_data.tag;
    data.insert(tag, new_data);
}

} // verus!
