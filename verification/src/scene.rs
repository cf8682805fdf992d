//! Scenes: ordered setup and execution entries over a private registry.
//!
//! A scene is populated once by a declarative introduction step, runs its
//! setup entries once in registration order, and then runs its execution
//! entries in registration order on every tick. Dispatch is by type key
//! through the [`Ready`] and [`Paint`] traits, which the embedder implements
//! for its resource payload type: the payload value (for setup) or the key
//! alone (for execution) selects the behaviour, so the callback tables hold
//! plain values rather than closures.

use vstd::prelude::*;

use crate::kv::{kv_find, kv_insert, kv_map, lemma_kv_map_update};
use crate::registry::{Registry, Resource, TypeKey};

verus! {

/// A resource payload that takes part in the setup phase.
///
/// One value of the implementing type is registered per setup entry; when
/// the phase runs, that value's `ready` is called with the scene's registry
/// and the execution context. `ready_spec` names what the call does, so that
/// the scene can promise the effect of a whole setup pass; a verified
/// implementation proves its `ready` against it, an unverified one is
/// trusted to match it.
pub trait Ready<G>: Sized {
    /// What one setup call does: from the callback's own state and the
    /// registry contents, the state and contents after the call. Unless
    /// overridden it describes a step that changes nothing; an
    /// implementation whose `ready` does more overrides it accordingly.
    open spec fn ready_spec(self, data: Map<TypeKey, Resource<Self>>, gfx: G) -> (
        Self,
        Map<TypeKey, Resource<Self>>,
    ) {
        (self, data)
    }

    /// Run one setup step against the scene's registry and the execution
    /// context. The context is received opaquely and may be inspected or
    /// forwarded, never replaced.
    fn ready(&mut self, data: &mut Registry<Self>, gfx: &G)
        ensures
            (*final(self), final(data)@) == Self::ready_spec(*old(self), old(data)@, *gfx),
    ;
}

/// The execution-phase behaviour of a resource payload type.
///
/// Execution entries carry no state of their own: each tick, the entry's
/// type key is handed to `paint`, which dispatches on it.
pub trait Paint<G>: Sized {
    /// What one execution call registered under `key` does to the registry.
    /// Unless overridden it describes a step that changes nothing; an
    /// implementation whose `paint` does more overrides it accordingly.
    open spec fn paint_spec(key: TypeKey, data: Map<TypeKey, Resource<Self>>, gfx: G) -> Map<
        TypeKey,
        Resource<Self>,
    > {
        data
    }

    /// Run the execution step registered under `key`.
    fn paint(key: TypeKey, data: &mut Registry<Self>, gfx: &G)
        ensures
            final(data)@ == Self::paint_spec(key, old(data)@, *gfx),
    ;
}

/// An optional helper shape for splitting a large `paint` into smaller
/// update steps; the scene itself never calls it.
pub trait Update<G>: Sized {
    /// Run one update step.
    fn update(data: &mut Registry<Self>, gfx: &G);
}

/// A declarative scene description: `introduce` registers every setup and
/// execution entry of one scene, and nothing else.
pub trait Queue {
    /// The execution context type the scene's entries expect.
    type G;

    /// The resource payload type of the scene's registry.
    type V;

    /// What the introduction step leaves behind, as a function of the fresh
    /// scene it receives. Unless overridden it describes an introduction
    /// that registers nothing; an implementation whose `introduce` does
    /// more overrides it accordingly.
    open spec fn introduce_spec(scene: Scene<Self::V>) -> Scene<Self::V> {
        scene
    }

    /// Populate a freshly constructed scene.
    fn introduce(scene: &mut Scene<Self::V>)
        ensures
            *final(scene) == Self::introduce_spec(*old(scene)),
    ;
}

/// A marker telling embedder code which execution context type a scene
/// family is written against.
pub trait DetectGraphics {
    /// The execution context type.
    type Graphics;
}

/// An ordered collection of setup entries and execution entries, with its
/// own private resource registry and a display name.
///
/// Setup entries are pairs of a type key and a callback value, kept both in
/// registration order and in a lookup table; execution entries are type
/// keys in registration order.
pub struct Scene<V> {
    name: String,
    res: Registry<V>,
    readys: Vec<TypeKey>,
    readys_table: Vec<(TypeKey, V)>,
    paints: Vec<TypeKey>,
}

/// One pass of the setup phase: visit `keys` in order and apply the
/// registered callback of each, threading the callback table and the
/// registry contents through; a key without a table entry is passed over.
pub open spec fn spec_run_ready<G, V: Ready<G>>(
    keys: Seq<TypeKey>,
    cbs: Map<TypeKey, V>,
    res: Map<TypeKey, Resource<V>>,
    gfx: G,
) -> (Map<TypeKey, V>, Map<TypeKey, Resource<V>>)
    decreases keys.len(),
{
    if keys.len() == 0 {
        (cbs, res)
    } else {
        let key = keys[0];
        if cbs.dom().contains(key) {
            let stepped = cbs[key].ready_spec(res, gfx);
            spec_run_ready(keys.drop_first(), cbs.insert(key, stepped.0), stepped.1, gfx)
        } else {
            spec_run_ready(keys.drop_first(), cbs, res, gfx)
        }
    }
}

/// One tick of the execution phase: visit `keys` in order and apply the
/// execution step of each to the registry contents.
pub open spec fn spec_run_paint<G, V: Paint<G>>(
    keys: Seq<TypeKey>,
    res: Map<TypeKey, Resource<V>>,
    gfx: G,
) -> Map<TypeKey, Resource<V>>
    decreases keys.len(),
{
    if keys.len() == 0 {
        res
    } else {
        spec_run_paint(keys.drop_first(), V::paint_spec(keys[0], res, gfx), gfx)
    }
}

/// What a freshly constructed scene looks like: the given name, no entries,
/// an empty registry.
pub open spec fn spec_scene_fresh<V>(s: Scene<V>, name: Seq<char>) -> bool {
    &&& s.name_spec() == name
    &&& s.setup_order() == Seq::<TypeKey>::empty()
    &&& s.setup_callbacks() == Map::<TypeKey, V>::empty()
    &&& s.execution_order() == Seq::<TypeKey>::empty()
    &&& s.resources() == Map::<TypeKey, Resource<V>>::empty()
    &&& s.wf()
}

/// How one whole setup pass relates a scene before to the scene after: the
/// name and both entry orders stand, and the callback table and registry
/// contents are stepped through every setup entry in registration order.
pub open spec fn spec_scene_ready_rel<G, V: Ready<G>>(s0: Scene<V>, s1: Scene<V>, gfx: G) -> bool {
    let stepped = spec_run_ready(s0.setup_order(), s0.setup_callbacks(), s0.resources(), gfx);
    &&& s1.name_spec() == s0.name_spec()
    &&& s1.setup_order() == s0.setup_order()
    &&& s1.execution_order() == s0.execution_order()
    &&& s1.setup_callbacks() == stepped.0
    &&& s1.resources() == stepped.1
}

/// How one execution tick relates a scene before to the scene after: only
/// the registry contents move, stepped through every execution entry in
/// registration order.
pub open spec fn spec_scene_paint_rel<G, V: Paint<G>>(s0: Scene<V>, s1: Scene<V>, gfx: G) -> bool {
    &&& s1.name_spec() == s0.name_spec()
    &&& s1.setup_order() == s0.setup_order()
    &&& s1.setup_callbacks() == s0.setup_callbacks()
    &&& s1.execution_order() == s0.execution_order()
    &&& s1.resources() == spec_run_paint::<G, V>(s0.execution_order(), s0.resources(), gfx)
}

/// Setup entries run in registration order: a pass over a concatenation of
/// two entry lists is the pass over the first list followed by the pass
/// over the second, starting from where the first left off.
pub proof fn lemma_run_ready_concat<G, V: Ready<G>>(
    keys1: Seq<TypeKey>,
    keys2: Seq<TypeKey>,
    cbs: Map<TypeKey, V>,
    res: Map<TypeKey, Resource<V>>,
    gfx: G,
)
    ensures
        spec_run_ready(keys1 + keys2, cbs, res, gfx) == ({
            let mid = spec_run_ready(keys1, cbs, res, gfx);
            spec_run_ready(keys2, mid.0, mid.1, gfx)
        }),
    decreases keys1.len(),
{
    if keys1.len() == 0 {
        assert(keys1 + keys2 =~= keys2);
    } else {
        assert((keys1 + keys2).drop_first() =~= keys1.drop_first() + keys2);
        let key = keys1[0];
        if cbs.dom().contains(key) {
            let stepped = cbs[key].ready_spec(res, gfx);
            lemma_run_ready_concat(
                keys1.drop_first(),
                keys2,
                cbs.insert(key, stepped.0),
                stepped.1,
                gfx,
            );
        } else {
            lemma_run_ready_concat(keys1.drop_first(), keys2, cbs, res, gfx);
        }
    }
}

/// Execution entries run in registration order: one tick over a
/// concatenation of two entry lists steps the registry through the first
/// list and then through the second.
pub proof fn lemma_run_paint_concat<G, V: Paint<G>>(
    keys1: Seq<TypeKey>,
    keys2: Seq<TypeKey>,
    res: Map<TypeKey, Resource<V>>,
    gfx: G,
)
    ensures
        spec_run_paint::<G, V>(keys1 + keys2, res, gfx) == spec_run_paint::<G, V>(
            keys2,
            spec_run_paint::<G, V>(keys1, res, gfx),
            gfx,
        ),
    decreases keys1.len(),
{
    if keys1.len() == 0 {
        assert(keys1 + keys2 =~= keys2);
    } else {
        assert((keys1 + keys2).drop_first() =~= keys1.drop_first() + keys2);
        lemma_run_paint_concat::<G, V>(
            keys1.drop_first(),
            keys2,
            V::paint_spec(keys1[0], res, gfx),
            gfx,
        );
    }
}

/// A setup pass never adds or removes a callback table entry: it only steps
/// the callbacks that are already registered.
pub proof fn lemma_run_ready_dom<G, V: Ready<G>>(
    keys: Seq<TypeKey>,
    cbs: Map<TypeKey, V>,
    res: Map<TypeKey, Resource<V>>,
    gfx: G,
)
    ensures
        spec_run_ready(keys, cbs, res, gfx).0.dom() == cbs.dom(),
    decreases keys.len(),
{
    if keys.len() > 0 {
        let key = keys[0];
        if cbs.dom().contains(key) {
            let stepped = cbs[key].ready_spec(res, gfx);
            assert(cbs.insert(key, stepped.0).dom() =~= cbs.dom());
            lemma_run_ready_dom(keys.drop_first(), cbs.insert(key, stepped.0), stepped.1, gfx);
        } else {
            lemma_run_ready_dom(keys.drop_first(), cbs, res, gfx);
        }
    }
}

impl<V> Scene<V> {
    /// The scene's display name.
    pub closed spec fn name_spec(&self) -> Seq<char> {
        self.name@
    }

    /// The setup entries' type keys, in registration order.
    pub closed spec fn setup_order(&self) -> Seq<TypeKey> {
        self.readys@
    }

    /// The setup callback table: for each registered key, the callback value
    /// that will run for it.
    pub closed spec fn setup_callbacks(&self) -> Map<TypeKey, V> {
        kv_map(self.readys_table@)
    }

    /// The execution entries' type keys, in registration order.
    pub closed spec fn execution_order(&self) -> Seq<TypeKey> {
        self.paints@
    }

    /// The contents of the scene's private registry.
    pub closed spec fn resources(&self) -> Map<TypeKey, Resource<V>> {
        self.res@
    }

    /// Every key in the setup order has a callback in the table: the two are
    /// always registered together.
    pub open spec fn wf(&self) -> bool {
        forall|idx: int|
            0 <= idx < self.setup_order().len() ==> self.setup_callbacks().dom().contains(
                #[trigger] self.setup_order()[idx],
            )
    }

    /// An empty scene with the given display name.
    pub fn new(name: String) -> (s: Self)
        ensures
            s.name_spec() == name@,
            s.setup_order() == Seq::<TypeKey>::empty(),
            s.setup_callbacks() == Map::<TypeKey, V>::empty(),
            s.execution_order() == Seq::<TypeKey>::empty(),
            s.resources() == Map::<TypeKey, Resource<V>>::empty(),
            s.wf(),
    {
        Scene {
            name,
            res: Registry::new(),
            readys: Vec::new(),
            readys_table: Vec::new(),
            paints: Vec::new(),
        }
    }

    /// The scene's display name.
    pub fn get_name(&self) -> (r: &str)
        ensures
            r@ == self.name_spec(),
    {
        self.name.as_str()
    }

    /// The scene's registry, for observation from outside a callback.
    pub fn registry(&self) -> (r: &Registry<V>)
        ensures
            r@ == self.resources(),
    {
        &self.res
    }

    /// Register a setup entry: append the resource's type key to the setup
    /// order, file a placeholder under that key in the registry at once, and
    /// store the given value as the entry's callback.
    ///
    /// The placeholder is the payload type's default value; it exists so an
    /// earlier entry's setup callback can already find a slot for this type.
    /// Until this entry's own setup has run, that slot is not yet fully
    /// initialized — reading it from a callback registered earlier is a
    /// registration-order hazard the embedder must mind.
    pub fn add_ready(&mut self, ready_res: Resource<V>) -> (s: &mut Self) where V: Default
        ensures
            s.name_spec() == old(self).name_spec(),
            s.setup_order() == old(self).setup_order().push(ready_res.tag),
            s.setup_callbacks() == old(self).setup_callbacks().insert(
                ready_res.tag,
                ready_res.value,
            ),
            s.execution_order() == old(self).execution_order(),
            (exists|placeholder: V|
                s.resources() == old(self).resources().insert(
                    ready_res.tag,
                    (Resource { tag: ready_res.tag, value: placeholder }),
                )),
            old(self).wf() ==> s.wf(),
            *final(self) == *final(s),
    {
        let type_id = ready_res.tag;
        self.readys.push(type_id);
        let placeholder = V::default();
        let ghost ph = placeholder;
        self.res.insert(type_id, Resource::new(type_id, placeholder));
        kv_insert(&mut self.readys_table, type_id, ready_res.value);
        proof {
            assert(self.resources() == old(self).resources().insert(
                type_id,
                (Resource { tag: type_id, value: ph }),
            ));
            if old(self).wf() {
                assert forall|idx: int| 0 <= idx < self.readys@.len() implies kv_map(
                    self.readys_table@,
                ).dom().contains(#[trigger] self.readys@[idx]) by {
                    if idx < old(self).readys@.len() {
                        assert(old(self).setup_callbacks().dom().contains(
                            old(self).setup_order()[idx],
                        ));
                    }
                }
            }
        }
        self
    }

    /// Register an execution entry: append `key` to the execution order.
    /// Each tick, the execution step of the payload type dispatches on it.
    pub fn add_paint(&mut self, key: TypeKey)
        ensures
            final(self).name_spec() == old(self).name_spec(),
            final(self).setup_order() == old(self).setup_order(),
            final(self).setup_callbacks() == old(self).setup_callbacks(),
            final(self).execution_order() == old(self).execution_order().push(key),
            final(self).resources() == old(self).resources(),
            old(self).wf() ==> final(self).wf(),
    {
        self.paints.push(key);
    }

    /// Run the setup phase: every setup entry once, in registration order.
    ///
    /// Each callback may read and write any resource of this scene's own
    /// registry, including slots that later entries have only filed a
    /// placeholder for.
    pub fn ready<G>(&mut self, gfx: &G) where V: Ready<G>
        ensures
            spec_scene_ready_rel(*old(self), *final(self), *gfx),
            old(self).wf() ==> final(self).wf(),
    {
        let ghost goal = spec_run_ready(self.readys@, kv_map(self.readys_table@), self.res@, *gfx);
        proof {
            assert(self.readys@.skip(0) =~= self.readys@);
        }
        let n = self.readys.len();
        let mut idx: usize = 0;
        while idx < n
            invariant
                idx <= n,
                n == self.readys@.len(),
                self.readys@ == old(self).readys@,
                self.paints@ == old(self).paints@,
                self.name@ == old(self).name@,
                spec_run_ready(
                    self.readys@.skip(idx as int),
                    kv_map(self.readys_table@),
                    self.res@,
                    *gfx,
                ) == goal,
            decreases n - idx,
        {
            let ghost tail = self.readys@.skip(idx as int);
            proof {
                assert(tail.drop_first() =~= self.readys@.skip(idx as int + 1));
            }
            let key = self.readys[idx];
            match kv_find(&self.readys_table, key) {
                None => {},
                Some(cbi) => {
                    let ghost table0 = self.readys_table@;
                    let cb = &mut self.readys_table[cbi].1;
                    cb.ready(&mut self.res, gfx);
                    proof {
                        lemma_kv_map_update(
                            table0,
                            cbi as int,
                            self.readys_table@[cbi as int].1,
                        );
                        assert(self.readys_table@ =~= table0.update(
                            cbi as int,
                            (key, self.readys_table@[cbi as int].1),
                        ));
                    }
                },
            }
            idx += 1;
        }
        proof {
            assert(self.readys@.skip(n as int) =~= Seq::<TypeKey>::empty());
            if old(self).wf() {
                lemma_run_ready_dom(
                    old(self).setup_order(),
                    old(self).setup_callbacks(),
                    old(self).resources(),
                    *gfx,
                );
            }
        }
    }

    /// Run one tick of the execution phase: every execution entry once, in
    /// registration order. A tick either completes every entry or, should a
    /// callback halt, stops where it halted; the scene itself never reorders
    /// or skips an entry.
    pub fn paint<G>(&mut self, gfx: &G) where V: Paint<G>
        ensures
            spec_scene_paint_rel(*old(self), *final(self), *gfx),
            old(self).wf() ==> final(self).wf(),
    {
        let ghost goal = spec_run_paint::<G, V>(self.paints@, self.res@, *gfx);
        proof {
            assert(self.paints@.skip(0) =~= self.paints@);
        }
        let n = self.paints.len();
        let mut idx: usize = 0;
        while idx < n
            invariant
                idx <= n,
                n == self.paints@.len(),
                self.readys@ == old(self).readys@,
                self.readys_table@ == old(self).readys_table@,
                self.paints@ == old(self).paints@,
                self.name@ == old(self).name@,
                spec_run_paint::<G, V>(self.paints@.skip(idx as int), self.res@, *gfx) == goal,
            decreases n - idx,
        {
            let ghost tail = self.paints@.skip(idx as int);
            proof {
                assert(tail.drop_first() =~= self.paints@.skip(idx as int + 1));
            }
            let key = self.paints[idx];
            V::paint(key, &mut self.res, gfx);
            idx += 1;
        }
        proof {
            assert(self.paints@.skip(n as int) =~= Seq::<TypeKey>::empty());
        }
    }
}

} // verus!
