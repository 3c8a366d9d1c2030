//! The callback binding layer: a copyable [`Context`] capability builds
//! concrete listeners from raw closure payloads. Because the render
//! function re-runs on every pass, `bind` runs again each pass, typically
//! with different captured values; updating an existing [`CallbackProduct`]
//! swaps only the closure payload inside it and leaves the registered
//! native listener untouched, which is what avoids listener churn across
//! renders.

use vstd::prelude::*;

use core::marker::PhantomData;

use crate::dom::Document;
use crate::stateful::hook::{dispatch, Hook};
use crate::stateful::Mount;
use crate::view::{Html, Mountable};
use crate::Decision;

verus! {

/// A copyable capability pairing a component's liveness epoch with the
/// ability to build listeners against it.
pub struct Context<S> {
    epoch: u64,
    _marker: PhantomData<S>,
}

impl<S> Clone for Context<S> {
    fn clone(&self) -> (c: Self)
        ensures
            c.spec_epoch() == self.spec_epoch(),
    {
        Context { epoch: self.epoch, _marker: PhantomData }
    }
}

impl<S> Copy for Context<S> {

}

impl<S> Context<S> {
    /// The liveness epoch of the component this capability speaks for.
    pub closed spec fn spec_epoch(&self) -> u64 {
        self.epoch
    }

    pub(crate) fn new(epoch: u64) -> (cx: Context<S>)
        ensures
            cx.spec_epoch() == epoch,
    {
        Context { epoch, _marker: PhantomData }
    }

    /// Bind a mutator closure, yielding a description whose mounted product
    /// is one registered native listener.
    pub fn bind<E, F, O>(self, cb: F) -> (c: Callback<E, F, S>) where
        F: Fn(S, E) -> (S, O),
        O: Decision,

        ensures
            c.spec_cb() == cb,
            c.spec_epoch() == self.spec_epoch(),
    {
        Callback { cb, ctx: self, _marker: PhantomData }
    }
}

/// The description of one event binding: this render pass's closure payload
/// plus the component it mutates.
pub struct Callback<E, F, S> {
    cb: F,
    ctx: Context<S>,
    _marker: PhantomData<E>,
}

impl<E, F, S> Callback<E, F, S> {
    /// The closure payload captured on this render pass.
    pub closed spec fn spec_cb(&self) -> F {
        self.cb
    }

    /// The liveness epoch of the component this binding mutates.
    pub closed spec fn spec_epoch(&self) -> u64 {
        self.ctx.spec_epoch()
    }
}

/// The mounted product of a [`Callback`]: the handle of the one registered
/// native listener, and the closure payload it currently runs.
pub struct CallbackProduct<F> {
    listener: usize,
    cb: F,
    epoch: u64,
}

impl<F> CallbackProduct<F> {
    /// The registered native listener's handle; stable across render
    /// passes.
    pub closed spec fn spec_listener(&self) -> usize {
        self.listener
    }

    /// The closure payload the listener currently runs.
    pub closed spec fn spec_cb(&self) -> F {
        self.cb
    }

    /// The liveness epoch of the component this listener mutates.
    pub closed spec fn spec_epoch(&self) -> u64 {
        self.epoch
    }

    /// Run the registered listener on `event`: borrow state exclusively,
    /// run the current payload, release, and render exactly when the
    /// payload's decision says Render. On a dead mount nothing at all
    /// happens.
    pub fn fire<S, V, G, E, O>(
        &self,
        event: E,
        mount: &mut Mount<S, V, G>,
        doc: &mut Document,
    ) where
        V: Html,
        G: Fn(&Hook<S>) -> V,
        F: Fn(S, E) -> (S, O),
        O: Decision,

        requires
            old(mount).wf(old(doc)),
            old(doc).wf(),
            old(mount).live(self.spec_epoch()) ==> call_requires(
                self.spec_cb(),
                (old(mount).state(), event),
            ),
        ensures
            final(doc).wf(),
            final(mount).wf(final(doc)),
            final(mount).is_mounted() == old(mount).is_mounted(),
            final(mount).epoch() == old(mount).epoch(),
            final(mount).render_fn() == old(mount).render_fn(),
            !old(mount).live(self.spec_epoch()) ==> *final(mount) == *old(mount) && *final(doc)
                == *old(doc),
            old(mount).live(self.spec_epoch()) ==> exists|s2: S, o: O|
                {
                    &&& #[trigger] call_ensures(self.spec_cb(), (old(mount).state(), event), (s2, o))
                    &&& final(mount).state() == s2
                    &&& (!o.spec_renders() ==> final(mount).product() == old(mount).product()
                        && *final(doc) == *old(doc))
                    &&& (o.spec_renders() ==> final(mount).rendered())
                },
    {
        dispatch(&self.cb, self.epoch, event, mount, doc);
        proof {
            if old(mount).live(self.spec_epoch()) {
                let (s2, o) = choose|s2: S, o: O|
                    {
                        &&& #[trigger] call_ensures(self.cb, (old(mount).state(), event), (s2, o))
                        &&& mount.state() == s2
                        &&& (!o.spec_renders() ==> mount.product() == old(mount).product() && *doc
                            == *old(doc))
                        &&& (o.spec_renders() ==> mount.rendered() && V::same_place(
                            &old(mount).product(),
                            &mount.product(),
                        ))
                    };
                assert(call_ensures(self.spec_cb(), (old(mount).state(), event), (s2, o)));
            }
        }
    }
}

impl<E, F, S> Html for Callback<E, F, S> {
    type Product = CallbackProduct<F>;

    open spec fn wf(p: &CallbackProduct<F>, doc: &Document) -> bool {
        true
    }

    open spec fn same(&self, p: &CallbackProduct<F>) -> bool {
        p.spec_cb() == self.spec_cb() && p.spec_epoch() == self.spec_epoch()
    }

    open spec fn same_place(p0: &CallbackProduct<F>, p1: &CallbackProduct<F>) -> bool {
        p0.spec_listener() == p1.spec_listener()
    }

    /// Register the one native listener this binding will ever use: the
    /// product's handle is freshly issued by the document's registry, which
    /// grows by exactly this registration; no node is touched.
    fn build(self, doc: &mut Document) -> (p: CallbackProduct<F>)
        ensures
            p.spec_listener() as nat == old(doc).listener_count(),
            old(doc).listener_count() < usize::MAX ==> final(doc).listener_count() == old(
                doc,
            ).listener_count() + 1,
            final(doc).listener_count() >= old(doc).listener_count(),
            final(doc).node_count() == old(doc).node_count(),
            final(doc).mutation_count() == old(doc).mutation_count() + 1,
            forall|j: int|
                0 <= j < old(doc).node_count() ==> final(doc).node_unchanged(old(doc), j),
    {
        let listener = doc.register_listener();
        CallbackProduct { listener, cb: self.cb, epoch: self.ctx.epoch }
    }

    /// Swap only the closure payload. The registered native listener — its
    /// handle and the document's listener records with it — stays exactly
    /// as it was: rebinding across render passes never re-registers.
    fn update(self, p: &mut CallbackProduct<F>, doc: &mut Document)
        ensures
            final(p).spec_listener() == old(p).spec_listener(),
            *final(doc) == *old(doc),
    {
        p.cb = self.cb;
        p.epoch = self.ctx.epoch;
    }

    proof fn wf_preserved(p: &CallbackProduct<F>, d0: &Document, d1: &Document) {
    }
}

impl<F> Mountable for CallbackProduct<F> {
    /// A listener binding mounts no element of its own: asking it for one
    /// is a template defect upstream, proven unreachable in verified code
    /// and aborting loudly if unverified code ever does it.
    open spec fn has_el(&self) -> bool {
        false
    }

    fn el(&self) -> &crate::dom::Element {
        vstd::pervasive::unreached()
    }

    fn js(&self) -> (id: usize)
        ensures
            id == self.spec_listener(),
    {
        self.listener
    }
}

} // verus!
