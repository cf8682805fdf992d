//! A minimal per-frame application runtime.
//!
//! The crate provides a heterogeneous resource registry (one owned value per
//! type key), a disjoint multi-access mechanism that hands out several
//! borrows into one registry at once, ordered scenes of setup and execution
//! entries, and a lifecycle driver that runs every attached scene through a
//! one-time setup phase and a repeated execution phase.
//!
//! The execution context that callbacks receive is opaque to the core: it is
//! forwarded unchanged and never inspected.

mod kv;
pub mod error;
pub mod multi;
pub mod registry;
pub mod scene;

use vstd::prelude::*;

use crate::error::Error;
use crate::scene::{
    spec_scene_fresh, spec_scene_paint_rel, spec_scene_ready_rel, Paint, Queue, Ready, Scene,
};

verus! {

/// The lifecycle slot for the execution context: empty until the embedder
/// supplies one.
pub enum RenderEntry<G> {
    /// No context yet; setup and execution are refused.
    NotReady,
    /// The context the driver hands to every callback.
    Ready(G),
}

/// The lifecycle driver: one execution-context slot and the scenes it owns,
/// in attachment order.
///
/// The embedder fills `entry` exactly once, then drives the one-time setup
/// phase with [`Render::ready`] and each frame with [`Render::paint`].
pub struct Render<G, V> {
    /// The execution-context slot.
    pub entry: RenderEntry<G>,
    /// The owned scenes, in attachment order.
    pub scenes: Vec<Scene<V>>,
}

impl<G, V> Render<G, V> {
    /// A driver with no context and no scenes.
    pub fn new() -> (r: Self)
        ensures
            r.entry is NotReady,
            r.scenes@ == Seq::<Scene<V>>::empty(),
    {
        Render { entry: RenderEntry::NotReady, scenes: Vec::new() }
    }

    /// Construct a scene named `name`, populate it through `T`'s
    /// introduction step, and append it to the owned scenes; attachment
    /// order is the order scenes are set up and executed.
    pub fn add_scene<T: Queue<G = G, V = V>>(&mut self, name: String) -> (r: &mut Self)
        ensures
            r.entry == old(self).entry,
            r.scenes@.len() == old(self).scenes@.len() + 1,
            forall|k: int|
                0 <= k < old(self).scenes@.len() ==> r.scenes@[k] == old(self).scenes@[k],
            (exists|fresh: Scene<V>|
                spec_scene_fresh(fresh, name@) && r.scenes@.last() == T::introduce_spec(fresh)),
            *final(self) == *final(r),
    {
        let mut s: Scene<V> = Scene::new(name);
        let ghost fresh = s;
        T::introduce(&mut s);
        self.scenes.push(s);
        self
    }

    /// Run the setup phase of every owned scene, in attachment order.
    ///
    /// Requesting setup with no execution context is a programming error;
    /// the driver refuses it without touching any scene.
    pub fn ready(&mut self) -> (r: Result<(), Error>) where V: Ready<G>
        ensures
            final(self).entry == old(self).entry,
            final(self).scenes@.len() == old(self).scenes@.len(),
            old(self).entry is NotReady ==> {
                &&& r == Err::<(), Error>(Error::DriverNotReady)
                &&& final(self).scenes@ == old(self).scenes@
            },
            old(self).entry is Ready ==> {
                &&& r is Ok
                &&& forall|k: int|
                    0 <= k < old(self).scenes@.len() ==> spec_scene_ready_rel(
                        old(self).scenes@[k],
                        #[trigger] final(self).scenes@[k],
                        old(self).entry->Ready_0,
                    )
            },
    {
        match &self.entry {
            RenderEntry::NotReady => Err(Error::DriverNotReady),
            RenderEntry::Ready(gfx) => {
                let n = self.scenes.len();
                let mut i: usize = 0;
                while i < n
                    invariant
                        i <= n,
                        n == self.scenes@.len(),
                        self.entry == old(self).entry,
                        self.entry is Ready,
                        *gfx == self.entry->Ready_0,
                        forall|k: int| i as int <= k < n ==> self.scenes@[k] == old(self).scenes@[k],
                        forall|k: int|
                            0 <= k < i as int ==> spec_scene_ready_rel(
                                old(self).scenes@[k],
                                #[trigger] self.scenes@[k],
                                *gfx,
                            ),
                    decreases n - i,
                {
                    self.scenes[i].ready(gfx);
                    i += 1;
                }
                Ok(())
            },
        }
    }

    /// Run one tick of the execution phase of every owned scene, in
    /// attachment order; the same precondition on the context slot holds as
    /// for setup.
    pub fn paint(&mut self) -> (r: Result<(), Error>) where V: Paint<G>
        ensures
            final(self).entry == old(self).entry,
            final(self).scenes@.len() == old(self).scenes@.len(),
            old(self).entry is NotReady ==> {
                &&& r == Err::<(), Error>(Error::DriverNotReady)
                &&& final(self).scenes@ == old(self).scenes@
            },
            old(self).entry is Ready ==> {
                &&& r is Ok
                &&& forall|k: int|
                    0 <= k < old(self).scenes@.len() ==> spec_scene_paint_rel(
                        old(self).scenes@[k],
                        #[trigger] final(self).scenes@[k],
                        old(self).entry->Ready_0,
                    )
            },
    {
        match &self.entry {
            RenderEntry::NotReady => Err(Error::DriverNotReady),
            RenderEntry::Ready(gfx) => {
                let n = self.scenes.len();
                let mut i: usize = 0;
                while i < n
                    invariant
                        i <= n,
                        n == self.scenes@.len(),
                        self.entry == old(self).entry,
                        self.entry is Ready,
                        *gfx == self.entry->Ready_0,
                        forall|k: int| i as int <= k < n ==> self.scenes@[k] == old(self).scenes@[k],
                        forall|k: int|
                            0 <= k < i as int ==> spec_scene_paint_rel(
                                old(self).scenes@[k],
                                #[trigger] self.scenes@[k],
                                *gfx,
                            ),
                    decreases n - i,
                {
                    self.scenes[i].paint(gfx);
                    i += 1;
                }
                Ok(())
            },
        }
    }
}

} // verus!
