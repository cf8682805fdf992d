//! Disjoint multi-access: borrowing several distinct resource slots of one
//! registry at the same time.
//!
//! A request names each slot by type key and by the access it wants, a
//! shared read ([`Ref`]) or a mutable write ([`Mut`]). Before any borrow is
//! produced, the keys of a request are checked to be pairwise distinct; a
//! repeated key is rejected loudly, since honouring it would hand out two
//! overlapping borrows. Given distinct keys, every granted borrow touches a
//! different entry of the registry, so the borrows are independent: writing
//! through one never shows through another.

use vstd::prelude::*;

use crate::error::Error;
use crate::registry::{
    get_four_muts, get_ref_and_mut, get_three_muts, get_two_muts, spec_multi_access3,
    spec_multi_access4, spec_pair_access, Registry, Resource, TypeKey,
};

verus! {

/// The two kinds of access a request element may ask for.
pub trait AccessMode {
    /// Whether this mode grants mutation.
    spec fn writes() -> bool;
}

/// Shared, read-only access.
pub struct Read;

/// Exclusive, mutable access.
pub struct Write;

impl AccessMode for Read {
    open spec fn writes() -> bool {
        false
    }
}

impl AccessMode for Write {
    open spec fn writes() -> bool {
        true
    }
}

/// A marker for element positions of a multi-access request, left for
/// embedders that want to abstract over request shapes in their own code.
pub trait InRefOrMut {
    /// The access mode of the position.
    type AccessMode;
    /// What the position yields once granted.
    type Output;
}

/// One element of a multi-access request: a type key together with the
/// access mode it asks for.
pub trait RefOrMut {
    /// The access mode of this element.
    type Mode: AccessMode;

    /// The type key this element asks for.
    spec fn key_spec(&self) -> TypeKey;

    /// Return the type key this element asks for.
    fn key(&self) -> (k: TypeKey)
        ensures
            k == self.key_spec(),
    ;
}

/// A request for shared access to the resource with the given type key.
pub struct Ref(pub TypeKey);

/// A request for mutable access to the resource with the given type key.
pub struct Mut(pub TypeKey);

impl RefOrMut for Ref {
    type Mode = Read;

    open spec fn key_spec(&self) -> TypeKey {
        self.0
    }

    fn key(&self) -> (k: TypeKey) {
        self.0
    }
}

impl RefOrMut for Mut {
    type Mode = Write;

    open spec fn key_spec(&self) -> TypeKey {
        self.0
    }

    fn key(&self) -> (k: TypeKey) {
        self.0
    }
}

/// Whether a key list names no key twice.
pub open spec fn distinct_keys(keys: Seq<TypeKey>) -> bool {
    forall|p: int, q: int| 0 <= p < q < keys.len() ==> keys[p] != keys[q]
}

/// A full multi-access request: a tuple of two to four request elements.
pub trait TurpleAccess {
    /// The type keys the request names, in request order.
    spec fn keys_spec(&self) -> Seq<TypeKey>;

    /// Check that the request names no type key twice.
    fn distinct(&self) -> (b: bool)
        ensures
            b == distinct_keys(self.keys_spec()),
    ;
}

impl<T1: RefOrMut, T2: RefOrMut> TurpleAccess for (T1, T2) {
    open spec fn keys_spec(&self) -> Seq<TypeKey> {
        seq![self.0.key_spec(), self.1.key_spec()]
    }

    fn distinct(&self) -> (b: bool) {
        self.0.key() != self.1.key()
    }
}

impl<T1: RefOrMut, T2: RefOrMut, T3: RefOrMut> TurpleAccess for (T1, T2, T3) {
    open spec fn keys_spec(&self) -> Seq<TypeKey> {
        seq![self.0.key_spec(), self.1.key_spec(), self.2.key_spec()]
    }

    fn distinct(&self) -> (b: bool) {
        let k1 = self.0.key();
        let k2 = self.1.key();
        let k3 = self.2.key();
        k1 != k2 && k1 != k3 && k2 != k3
    }
}

impl<T1: RefOrMut, T2: RefOrMut, T3: RefOrMut, T4: RefOrMut> TurpleAccess for (T1, T2, T3, T4) {
    open spec fn keys_spec(&self) -> Seq<TypeKey> {
        seq![self.0.key_spec(), self.1.key_spec(), self.2.key_spec(), self.3.key_spec()]
    }

    fn distinct(&self) -> (b: bool) {
        let k1 = self.0.key();
        let k2 = self.1.key();
        let k3 = self.2.key();
        let k4 = self.3.key();
        k1 != k2 && k1 != k3 && k1 != k4 && k2 != k3 && k2 != k4 && k3 != k4
    }
}

/// Grant a two-element read/write request: a shared borrow of the slot the
/// [`Ref`] element names and a mutable borrow of the slot the [`Mut`]
/// element names, live at the same time.
///
/// Distinctness of the two keys is asserted before either borrow is
/// produced. The result is exactly what asking the registry's single-slot
/// accessors one by one would give, with both borrows held at once; the
/// registry's shape cannot change while they are out, so the borrows stay
/// disjoint.
pub fn refs_muts<V>(data: &mut Registry<V>, req: (Ref, Mut)) -> (r: Result<(&V, &mut V), Error>)
    ensures
        r is Ok ==> {
            &&& spec_pair_access(old(data)@, req.0.key_spec(), req.1.key_spec()) == Ok::<
                (V, V),
                Error,
            >((*r->Ok_0.0, *r->Ok_0.1))
            &&& final(data)@ == old(data)@.insert(
                req.1.key_spec(),
                (Resource { tag: req.1.key_spec(), value: *final(r->Ok_0.1) }),
            )
        },
        r is Err ==> {
            &&& spec_pair_access(old(data)@, req.0.key_spec(), req.1.key_spec()) == Err::<
                (V, V),
                Error,
            >(r->Err_0)
            &&& final(data)@ == old(data)@
        },
{
    if !req.distinct() {
        return Err(Error::DuplicateTypeInMultiAccess);
    }
    let ref_key = req.0.key();
    let mut_key = req.1.key();
    get_ref_and_mut(data, ref_key, mut_key)
}

/// Grant a two-element write/write request: mutable borrows of both named
/// slots, live at the same time. A request of two shared reads needs no
/// mechanism at all — two calls of the registry's shared accessor coexist
/// freely — so the granted combinations are read/write ([`refs_muts`]) and
/// the all-write requests of each arity.
pub fn muts2<V>(data: &mut Registry<V>, req: (Mut, Mut)) -> (r: Result<(&mut V, &mut V), Error>)
    ensures
        r is Ok ==> {
            &&& spec_pair_access(old(data)@, req.0.key_spec(), req.1.key_spec()) == Ok::<
                (V, V),
                Error,
            >((*r->Ok_0.0, *r->Ok_0.1))
            &&& final(data)@ == old(data)@.insert(
                req.0.key_spec(),
                (Resource { tag: req.0.key_spec(), value: *final(r->Ok_0.0) }),
            ).insert(
                req.1.key_spec(),
                (Resource { tag: req.1.key_spec(), value: *final(r->Ok_0.1) }),
            )
        },
        r is Err ==> {
            &&& spec_pair_access(old(data)@, req.0.key_spec(), req.1.key_spec()) == Err::<
                (V, V),
                Error,
            >(r->Err_0)
            &&& final(data)@ == old(data)@
        },
{
    if !req.distinct() {
        return Err(Error::DuplicateTypeInMultiAccess);
    }
    get_two_muts(data, req.0.key(), req.1.key())
}

/// Grant a three-element all-write request: mutable borrows of the three
/// named slots, live at the same time.
pub fn muts3<V>(data: &mut Registry<V>, req: (Mut, Mut, Mut)) -> (r: Result<
    (&mut V, &mut V, &mut V),
    Error,
>)
    ensures
        r is Ok ==> {
            &&& spec_multi_access3(
                old(data)@,
                req.0.key_spec(),
                req.1.key_spec(),
                req.2.key_spec(),
            ) == Ok::<(V, V, V), Error>((*r->Ok_0.0, *r->Ok_0.1, *r->Ok_0.2))
            &&& final(data)@ == old(data)@.insert(
                req.0.key_spec(),
                (Resource { tag: req.0.key_spec(), value: *final(r->Ok_0.0) }),
            ).insert(
                req.1.key_spec(),
                (Resource { tag: req.1.key_spec(), value: *final(r->Ok_0.1) }),
            ).insert(
                req.2.key_spec(),
                (Resource { tag: req.2.key_spec(), value: *final(r->Ok_0.2) }),
            )
        },
        r is Err ==> {
            &&& spec_multi_access3(
                old(data)@,
                req.0.key_spec(),
                req.1.key_spec(),
                req.2.key_spec(),
            ) == Err::<(V, V, V), Error>(r->Err_0)
            &&& final(data)@ == old(data)@
        },
{
    if !req.distinct() {
        return Err(Error::DuplicateTypeInMultiAccess);
    }
    get_three_muts(data, req.0.key(), req.1.key(), req.2.key())
}

/// Grant a four-element all-write request: mutable borrows of the four
/// named slots, live at the same time.
pub fn muts4<V>(data: &mut Registry<V>, req: (Mut, Mut, Mut, Mut)) -> (r: Result<
    (&mut V, &mut V, &mut V, &mut V),
    Error,
>)
    ensures
        r is Ok ==> {
            &&& spec_multi_access4(
                old(data)@,
                req.0.key_spec(),
                req.1.key_spec(),
                req.2.key_spec(),
                req.3.key_spec(),
            ) == Ok::<(V, V, V, V), Error>((*r->Ok_0.0, *r->Ok_0.1, *r->Ok_0.2, *r->Ok_0.3))
            &&& final(data)@ == old(data)@.insert(
                req.0.key_spec(),
                (Resource { tag: req.0.key_spec(), value: *final(r->Ok_0.0) }),
            ).insert(
                req.1.key_spec(),
                (Resource { tag: req.1.key_spec(), value: *final(r->Ok_0.1) }),
            ).insert(
                req.2.key_spec(),
                (Resource { tag: req.2.key_spec(), value: *final(r->Ok_0.2) }),
            ).insert(
                req.3.key_spec(),
                (Resource { tag: req.3.key_spec(), value: *final(r->Ok_0.3) }),
            )
        },
        r is Err ==> {
            &&& spec_multi_access4(
                old(data)@,
                req.0.key_spec(),
                req.1.key_spec(),
                req.2.key_spec(),
                req.3.key_spec(),
            ) == Err::<(V, V, V, V), Error>(r->Err_0)
            &&& final(data)@ == old(data)@
        },
{
    if !req.distinct() {
        return Err(Error::DuplicateTypeInMultiAccess);
    }
    get_four_muts(data, req.0.key(), req.1.key(), req.2.key(), req.3.key())
}

} // verus!
