//! Handles onto mounted state: the read-only [`Hook`] given to render
//! logic, the non-owning [`Signal`] usable after suspension points, and the
//! [`Bound`] pairing of a mutator closure with its component, fired by
//! [`fire`] when the bound event arrives.

use vstd::prelude::*;

use core::marker::PhantomData;

use crate::dom::Document;
use crate::stateful::ctx::Context;
use crate::view::Html;
use crate::Decision;

verus! {


/// A runtime-checked access cell for application state.
pub struct StateCell<S> {
    /// The state, absent while an exclusive loan is open.
    slot: Option<S>,
}

impl<S> StateCell<S> {
    /// An exclusive loan is currently open.
    pub closed spec fn loaned(&self) -> bool {
        self.slot is None
    }

    /// The state held, meaningful while no loan is open.
    pub closed spec fn value(&self) -> S {
        self.slot->Some_0
    }

    /// A fresh cell holding `state`, with no loan open.
    pub fn new(state: S) -> (cell: StateCell<S>)
        ensures
            !cell.loaned(),
            cell.value() == state,
    {
        StateCell { slot: Some(state) }
    }

    /// Open the exclusive loan: take the state out. Acquiring while a loan
    /// is already open is the fatal misuse class; its precondition makes
    /// every verified acquisition site prove the cell is free.
    pub fn take(&mut self) -> (state: S)
        requires
            !old(self).loaned(),
        ensures
            final(self).loaned(),
            state == old(self).value(),
    {
        match self.slot.take() {
            Some(state) => state,
            None => vstd::pervasive::unreached(),
        }
    }

    /// Close the exclusive loan: put the state back.
    pub fn put(&mut self, state: S)
        requires
            old(self).loaned(),
        ensures
            !final(self).loaned(),
            final(self).value() == state,
    {
        self.slot = Some(state);
    }

    /// Shared read; never overlaps an exclusive loan.
    pub fn read(&self) -> (state: &S)
        requires
            !self.loaned(),
        ensures
            *state == self.value(),
    {
        match &self.slot {
            Some(state) => state,
            None => vstd::pervasive::unreached(),
        }
    }
}

/// The state container of one mounted stateful component: the state cell,
/// the mounted product, and the render function that recomputes the
/// product's description from current state.
pub struct Inner<S, V: Html, G> {
    pub(crate) hook: Hook<S>,
    pub(crate) product: V::Product,
    pub(crate) render: G,
}

/// The mount slot owning an [`Inner`], tagged with the liveness epoch that
/// non-owning handles check before every access.
pub struct Mount<S, V: Html, G> {
    pub(crate) inner: Option<Inner<S, V, G>>,
    pub(crate) epoch: u64,
}

impl<S, V: Html, G: Fn(&Hook<S>) -> V> Mount<S, V, G> {
    /// The component is still mounted.
    pub closed spec fn is_mounted(&self) -> bool {
        self.inner is Some
    }

    /// The liveness epoch handed to every handle minted for this mount.
    pub closed spec fn epoch(&self) -> u64 {
        self.epoch
    }

    /// A handle carrying `epoch` still reaches live state here.
    pub open spec fn live(&self, epoch: u64) -> bool {
        self.is_mounted() && epoch == self.epoch()
    }

    /// The application state held.
    pub closed spec fn state(&self) -> S {
        self.inner->Some_0.hook.spec_state()
    }

    /// The mounted product held.
    pub closed spec fn product(&self) -> V::Product {
        self.inner->Some_0.product
    }

    /// The render function held.
    pub closed spec fn render_fn(&self) -> G {
        self.inner->Some_0.render
    }

    /// An exclusive loan on the state cell is open.
    pub closed spec fn cell_loaned(&self) -> bool {
        self.inner->Some_0.hook.state.loaned()
    }

    /// The slot is ready for the next dispatch: no loan is open.
    pub open spec fn ready(&self) -> bool {
        self.is_mounted() ==> !self.cell_loaned()
    }

    /// Well-formed against `doc`: no loan open, the hook carries this
    /// mount's epoch, the product is a well-formed mounted representation,
    /// and the stored render function accepts every readable hook — so a
    /// render closure may demand readability, and read state through
    /// [`Hook::get`].
    pub closed spec fn wf(&self, doc: &Document) -> bool {
        match self.inner {
            Some(i) => {
                &&& i.hook.readable()
                &&& i.hook.spec_epoch() == self.epoch
                &&& V::wf(&i.product, doc)
                &&& forall|h: &Hook<S>| h.readable() ==> #[trigger] call_requires(i.render, (h,))
            },
            None => true,
        }
    }

    /// The mounted product's memo matches a description the render function
    /// produces from the current state: the presentation is up to date.
    pub closed spec fn rendered(&self) -> bool {
        match self.inner {
            Some(i) => exists|v: V|
                #[trigger] call_ensures(i.render, (&i.hook,), v) && v.same(&i.product),
            None => true,
        }
    }

    /// Mount a stateful component: initialize the state, run the render
    /// function once, and build its description. Build fires exactly once
    /// per mount point; every later pass goes through update.
    pub fn new(state: S, render: G, epoch: u64, doc: &mut Document) -> (m: Mount<S, V, G>)
        requires
            old(doc).wf(),
            forall|h: &Hook<S>| h.readable() ==> #[trigger] call_requires(render, (h,)),
        ensures
            final(doc).wf(),
            m.wf(final(doc)),
            m.is_mounted(),
            m.epoch() == epoch,
            m.live(epoch),
            m.state() == state,
            m.render_fn() == render,
            m.rendered(),
    {
        let hook = Hook::new(state, epoch);
        let desc = render(&hook);
        let product = desc.build(doc);
        Mount { inner: Some(Inner { hook, product, render }), epoch }
    }

    /// Bind a mutator closure to this mounted component, as render logic
    /// does through its hook; the owner of the slot may do the same.
    pub fn bind<E, F, O>(&self, callback: F) -> (b: Bound<S, F>) where
        F: Fn(S, E) -> (S, O),
        O: Decision,

        ensures
            b.spec_callback() == callback,
            b.spec_epoch() == self.epoch(),
    {
        Bound::new(callback, self.epoch)
    }

    /// A non-owning handle onto this component's state, checked for
    /// liveness at each use.
    pub fn signal(&self) -> (sig: Signal<S>)
        ensures
            sig.spec_epoch() == self.epoch(),
    {
        Signal { epoch: self.epoch, _marker: PhantomData }
    }

    /// The mounted product, for observation; `None` once unmounted.
    pub fn product_ref(&self) -> (r: Option<&V::Product>)
        ensures
            match r {
                Some(p) => self.is_mounted() && *p == self.product(),
                None => !self.is_mounted(),
            },
    {
        match &self.inner {
            Some(inner) => Some(&inner.product),
            None => None,
        }
    }

    /// Destroy the state container. Outstanding [`Signal`]s and listeners
    /// minted for this mount become inert: they find the slot dead and
    /// no-op. The mounted product's nodes are torn down by their own
    /// unmount, before the state goes away.
    ///
    /// [`Signal`]: crate::stateful::hook::Signal
    pub fn unmount(&mut self)
        ensures
            !final(self).is_mounted(),
            final(self).epoch() == old(self).epoch(),
    {
        self.inner = None;
    }

    /// Re-invoke the render function on current state and patch the product
    /// in place with the fresh description.
    pub(crate) fn refresh(&mut self, doc: &mut Document)
        requires
            old(self).is_mounted(),
            old(self).wf(old(doc)),
            old(doc).wf(),
        ensures
            final(doc).wf(),
            final(self).wf(final(doc)),
            final(self).is_mounted(),
            final(self).epoch() == old(self).epoch(),
            final(self).state() == old(self).state(),
            final(self).render_fn() == old(self).render_fn(),
            final(self).rendered(),
            V::same_place(&old(self).product(), &final(self).product()),
    {
        match &mut self.inner {
            Some(inner) => {
                let desc = (inner.render)(&inner.hook);
                desc.update(&mut inner.product, doc);
            },
            None => {
                proof {
                    assert(false);
                }
            },
        }
    }
}

/// A mount stays well-formed under any document change that leaves every
/// node the document already had unchanged: beside one component, others
/// may mount, build and update freely, and its own well-formedness can be
/// carried across. Rests on the protocol's frame law, [`Html::wf_preserved`].
pub proof fn lemma_mount_wf_preserved<S, V: Html, G: Fn(&Hook<S>) -> V>(
    m: &Mount<S, V, G>,
    d0: &Document,
    d1: &Document,
)
    requires
        m.wf(d0),
        d0.node_count() <= d1.node_count(),
        forall|j: int| 0 <= j < d0.node_count() ==> #[trigger] d1.node_unchanged(d0, j),
    ensures
        m.wf(d1),
{
    if m.inner is Some {
        let p = m.inner->Some_0.product;
        V::wf_preserved(&p, d0, d1);
    }
}

/// What an up-to-date mount means to a caller: the mounted product's memo
/// matches a description that the stored render function can produce from a
/// readable hook holding the current state, and the product is well-formed
/// in the document. With a render function whose contract pins its result,
/// this ties the mounted presentation to the state.
pub proof fn lemma_rendered_meaning<S, V: Html, G: Fn(&Hook<S>) -> V>(
    m: &Mount<S, V, G>,
    doc: &Document,
)
    requires
        m.wf(doc),
        m.is_mounted(),
        m.rendered(),
    ensures
        exists|h: Hook<S>, v: V|
            h.readable() && h.spec_state() == m.state() && #[trigger] call_ensures(
                m.render_fn(),
                (&h,),
                v,
            ) && v.same(&m.product()),
        V::wf(&m.product(), doc),
{
    let i = m.inner->Some_0;
    let v = choose|v: V| #[trigger] call_ensures(i.render, (&i.hook,), v) && v.same(&i.product);
    assert(i.hook.readable() && i.hook.spec_state() == m.state() && call_ensures(
        m.render_fn(),
        (&i.hook,),
        v,
    ) && v.same(&m.product()));
}

/// Exclusivity, as this crate discharges it: a well-formed mount never has
/// an exclusive loan open between dispatches, so the next event's
/// acquisition always finds the cell free — and [`StateCell::take`] itself
/// demands a free cell, so two exclusive loans on one cell can never be
/// open at once in verified code. Where an unchecked runtime would owe an
/// abort on a conflicting borrow, this crate owes — and discharges — a
/// proof obligation at every acquisition site instead.
pub proof fn lemma_dispatch_ready<S, V: Html, G: Fn(&Hook<S>) -> V>(m: &Mount<S, V, G>, doc: &Document)
    requires
        m.wf(doc),
    ensures
        m.ready(),
        !(m.is_mounted() && m.cell_loaned()),
{
}


/// A read-only projection of a component's state, handed to render logic.
pub struct Hook<S> {
    pub(crate) state: StateCell<S>,
    pub(crate) epoch: u64,
}

impl<S> Hook<S> {
    /// The state held.
    pub closed spec fn spec_state(&self) -> S {
        self.state.value()
    }

    /// The liveness epoch of the owning mount.
    pub closed spec fn spec_epoch(&self) -> u64 {
        self.epoch
    }

    /// No exclusive loan is open, so the state can be read.
    pub closed spec fn readable(&self) -> bool {
        !self.state.loaned()
    }

    /// Wrap fresh state for the mount slot carrying `epoch`.
    pub(crate) fn new(state: S, epoch: u64) -> (h: Hook<S>)
        ensures
            h.spec_state() == state,
            h.spec_epoch() == epoch,
            h.readable(),
    {
        Hook { state: StateCell::new(state), epoch }
    }

    /// The value of state, copied out.
    pub fn get(&self) -> (s: S) where S: Copy
        requires
            self.readable(),
        ensures
            s == self.spec_state(),
    {
        let state = self.state.read();
        *state
    }

    /// Bind a mutator closure to this component's state. Firing the result
    /// borrows state exclusively, runs the closure, and re-renders when its
    /// decision asks for it.
    pub fn bind<E, F, O>(&self, callback: F) -> (b: Bound<S, F>) where
        F: Fn(S, E) -> (S, O),
        O: Decision,

        ensures
            b.spec_callback() == callback,
            b.spec_epoch() == self.spec_epoch(),
    {
        Bound { callback, epoch: self.epoch, _marker: PhantomData }
    }

    /// A non-owning handle onto this component's state, for mutation from
    /// deferred contexts: an asynchronous continuation takes a `Signal`
    /// along and re-validates liveness at each use, never holding state
    /// across a suspension.
    pub fn signal(&self) -> (sig: Signal<S>)
        ensures
            sig.spec_epoch() == self.spec_epoch(),
    {
        Signal { epoch: self.epoch, _marker: PhantomData }
    }

    /// The copyable capability for building listeners against this
    /// component.
    pub fn context(&self) -> (cx: Context<S>)
        ensures
            cx.spec_epoch() == self.spec_epoch(),
    {
        Context::new(self.epoch)
    }
}

/// A cloneable, non-owning handle onto a component's state. Once the
/// component unmounts, every operation through a `Signal` minted for it is
/// a silent no-op, never an error.
pub struct Signal<S> {
    pub(crate) epoch: u64,
    _marker: PhantomData<S>,
}

impl<S> Clone for Signal<S> {
    fn clone(&self) -> (sig: Self)
        ensures
            sig.spec_epoch() == self.spec_epoch(),
    {
        Signal { epoch: self.epoch, _marker: PhantomData }
    }
}

impl<S> Signal<S> {
    /// The liveness epoch this handle was minted under.
    pub closed spec fn spec_epoch(&self) -> u64 {
        self.epoch
    }

    /// Update the state behind this signal: if the mount is live, apply the
    /// mutator under an exclusive loan, and re-render exactly when its
    /// decision asks for it. On a dead mount nothing at all happens.
    pub fn update<V, G, F, O>(&self, mutator: F, mount: &mut Mount<S, V, G>, doc: &mut Document) where
        V: Html,
        G: Fn(&Hook<S>) -> V,
        F: FnOnce(S) -> (S, O),
        O: Decision,

        requires
            old(mount).wf(old(doc)),
            old(doc).wf(),
            old(mount).live(self.spec_epoch()) ==> call_requires(
                mutator,
                (old(mount).state(),),
            ),
        ensures
            final(doc).wf(),
            final(mount).wf(final(doc)),
            final(mount).is_mounted() == old(mount).is_mounted(),
            final(mount).epoch() == old(mount).epoch(),
            final(mount).render_fn() == old(mount).render_fn(),
            !old(mount).live(self.spec_epoch()) ==> *final(mount) == *old(mount) && *final(doc)
                == *old(doc),
            old(mount).live(self.spec_epoch()) ==> exists|s2: S, o: O|
                {
                    &&& #[trigger] call_ensures(mutator, (old(mount).state(),), (s2, o))
                    &&& final(mount).state() == s2
                    &&& (!o.spec_renders() ==> final(mount).product() == old(mount).product()
                        && *final(doc) == *old(doc))
                    &&& (o.spec_renders() ==> final(mount).rendered() && V::same_place(
                        &old(mount).product(),
                        &final(mount).product(),
                    ))
                },
    {
        let ghost mut step: Option<(S, O)> = None;
        let mut do_render: bool = false;
        match &mut mount.inner {
            Some(inner) => {
                if self.epoch == mount.epoch {
                    let s = inner.hook.state.take();
                    let (s2, o) = mutator(s);
                    proof {
                        step = Some((s2, o));
                    }
                    inner.hook.state.put(s2);
                    do_render = o.renders();
                }
            },
            None => {},
        }
        if do_render {
            mount.refresh(doc);
        }
        proof {
            if old(mount).live(self.spec_epoch()) {
                let (s2, o) = step->Some_0;
                assert(call_ensures(mutator, (old(mount).state(),), (s2, o))
                    && mount.state() == s2 && (!o.spec_renders() ==> mount.product() == old(mount).product() && *doc == *old(doc)) && (o.spec_renders() ==> mount.rendered()));
            }
        }
    }

    /// Apply the mutator under an exclusive loan but never render,
    /// whatever it returns. On a dead mount nothing at all happens.
    pub fn update_silent<V, G, F>(&self, mutator: F, mount: &mut Mount<S, V, G>) where
        V: Html,
        G: Fn(&Hook<S>) -> V,
        F: FnOnce(S) -> S,

        requires
            old(mount).ready(),
            old(mount).live(self.spec_epoch()) ==> call_requires(
                mutator,
                (old(mount).state(),),
            ),
        ensures
            final(mount).ready(),
            final(mount).is_mounted() == old(mount).is_mounted(),
            final(mount).epoch() == old(mount).epoch(),
            final(mount).render_fn() == old(mount).render_fn(),
            final(mount).product() == old(mount).product(),
            forall|d: Document| #[trigger] old(mount).wf(&d) ==> final(mount).wf(&d),
            !old(mount).live(self.spec_epoch()) ==> *final(mount) == *old(mount),
            old(mount).live(self.spec_epoch()) ==> exists|s2: S|
                #[trigger] call_ensures(mutator, (old(mount).state(),), s2) && final(mount).state()
                    == s2,
    {
        let ghost mut step: Option<S> = None;
        match &mut mount.inner {
            Some(inner) => {
                if self.epoch == mount.epoch {
                    let s = inner.hook.state.take();
                    let s2 = mutator(s);
                    proof {
                        step = Some(s2);
                    }
                    inner.hook.state.put(s2);
                }
            },
            None => {},
        }
        proof {
            if old(mount).live(self.spec_epoch()) {
                let s2 = step->Some_0;
                assert(call_ensures(mutator, (old(mount).state(),), s2) && mount.state() == s2);
            }
            assert forall|d: Document| old(mount).wf(&d) implies mount.wf(&d) by {}
        }
    }

    /// Replace the state wholesale and render. On a dead mount nothing at
    /// all happens.
    pub fn set<V, G>(&self, value: S, mount: &mut Mount<S, V, G>, doc: &mut Document) where
        V: Html,
        G: Fn(&Hook<S>) -> V,

        requires
            old(mount).wf(old(doc)),
            old(doc).wf(),
        ensures
            final(doc).wf(),
            final(mount).wf(final(doc)),
            final(mount).is_mounted() == old(mount).is_mounted(),
            final(mount).epoch() == old(mount).epoch(),
            final(mount).render_fn() == old(mount).render_fn(),
            !old(mount).live(self.spec_epoch()) ==> *final(mount) == *old(mount) && *final(doc)
                == *old(doc),
            old(mount).live(self.spec_epoch()) ==> final(mount).state() == value
                && final(mount).rendered() && V::same_place(
                &old(mount).product(),
                &final(mount).product(),
            ),
    {
        let mut live: bool = false;
        match &mut mount.inner {
            Some(inner) => {
                if self.epoch == mount.epoch {
                    let _discarded = inner.hook.state.take();
                    inner.hook.state.put(value);
                    live = true;
                }
            },
            None => {},
        }
        if live {
            mount.refresh(doc);
        }
    }
}

/// A mutator closure bound to its component, awaiting conversion into a
/// registered listener. Copyable whenever the closure is, so a render pass
/// can hand the same binding to several positions.
pub struct Bound<S, F> {
    pub(crate) callback: F,
    pub(crate) epoch: u64,
    _marker: PhantomData<S>,
}

impl<S, F: Clone> Clone for Bound<S, F> {
    fn clone(&self) -> (b: Self)
        ensures
            b.spec_epoch() == self.spec_epoch(),
            vstd::pervasive::cloned::<F>(self.spec_callback(), b.spec_callback()),
    {
        Bound { callback: self.callback.clone(), epoch: self.epoch, _marker: PhantomData }
    }
}

impl<S, F: Copy> Copy for Bound<S, F> {

}

impl<S, F> Bound<S, F> {
    /// The captured mutator closure.
    pub closed spec fn spec_callback(&self) -> F {
        self.callback
    }

    /// The liveness epoch this binding was minted under.
    pub closed spec fn spec_epoch(&self) -> u64 {
        self.epoch
    }

    pub(crate) fn new(callback: F, epoch: u64) -> (b: Bound<S, F>)
        ensures
            b.spec_callback() == callback,
            b.spec_epoch() == epoch,
    {
        Bound { callback, epoch, _marker: PhantomData }
    }
}

/// The trampoline every registered listener runs: if the mount carrying
/// `epoch` is live, borrow state exclusively, run `callback` on state and
/// event, release the loan, and — exactly when the decision says Render —
/// recompute the description and patch the product, all before returning.
/// On a dead mount nothing at all happens.
pub(crate) fn dispatch<S, V, G, E, F, O>(
    callback: &F,
    epoch: u64,
    event: E,
    mount: &mut Mount<S, V, G>,
    doc: &mut Document,
) where
    V: Html,
    G: Fn(&Hook<S>) -> V,
    F: Fn(S, E) -> (S, O),
    O: Decision,

    requires
        old(mount).wf(old(doc)),
        old(doc).wf(),
        old(mount).live(epoch) ==> call_requires(*callback, (old(mount).state(), event)),
    ensures
        final(doc).wf(),
        final(mount).wf(final(doc)),
        final(mount).is_mounted() == old(mount).is_mounted(),
        final(mount).epoch() == old(mount).epoch(),
        final(mount).render_fn() == old(mount).render_fn(),
        !old(mount).live(epoch) ==> *final(mount) == *old(mount) && *final(doc) == *old(doc),
        old(mount).live(epoch) ==> exists|s2: S, o: O|
            {
                &&& #[trigger] call_ensures(*callback, (old(mount).state(), event), (s2, o))
                &&& final(mount).state() == s2
                &&& (!o.spec_renders() ==> final(mount).product() == old(mount).product() && *final(doc) == *old(doc))
                &&& (o.spec_renders() ==> final(mount).rendered() && V::same_place(
                    &old(mount).product(),
                    &final(mount).product(),
                ))
            },
{
    let ghost mut step: Option<(S, O)> = None;
    let mut do_render: bool = false;
    match &mut mount.inner {
        Some(inner) => {
            if epoch == mount.epoch {
                let s = inner.hook.state.take();
                let (s2, o) = (callback)(s, event);
                proof {
                    step = Some((s2, o));
                }
                inner.hook.state.put(s2);
                do_render = o.renders();
            }
        },
        None => {},
    }
    if do_render {
        mount.refresh(doc);
    }
    proof {
        if old(mount).live(epoch) {
            let (s2, o) = step->Some_0;
            assert(call_ensures(*callback, (old(mount).state(), event), (s2, o))
                && mount.state() == s2 && (!o.spec_renders() ==> mount.product() == old(
                mount,
            ).product() && *doc == *old(doc)) && (o.spec_renders() ==> mount.rendered()
                && V::same_place(&old(mount).product(), &mount.product())));
        }
    }
}

/// Dispatch one event through a [`Bound`] binding: borrow state
/// exclusively, run the bound closure, release, and render exactly when
/// the closure's decision says Render. On a dead mount nothing at all
/// happens.
pub fn fire<S, V, G, E, F, O>(
    bound: &Bound<S, F>,
    event: E,
    mount: &mut Mount<S, V, G>,
    doc: &mut Document,
) where
    V: Html,
    G: Fn(&Hook<S>) -> V,
    F: Fn(S, E) -> (S, O),
    O: Decision,

    requires
        old(mount).wf(old(doc)),
        old(doc).wf(),
        old(mount).live(bound.spec_epoch()) ==> call_requires(
            bound.spec_callback(),
            (old(mount).state(), event),
        ),
    ensures
        final(doc).wf(),
        final(mount).wf(final(doc)),
        final(mount).is_mounted() == old(mount).is_mounted(),
        final(mount).epoch() == old(mount).epoch(),
        final(mount).render_fn() == old(mount).render_fn(),
        !old(mount).live(bound.spec_epoch()) ==> *final(mount) == *old(mount) && *final(doc)
            == *old(doc),
        old(mount).live(bound.spec_epoch()) ==> exists|s2: S, o: O|
            {
                &&& #[trigger] call_ensures(bound.spec_callback(), (old(mount).state(), event), (s2, o))
                &&& final(mount).state() == s2
                &&& (!o.spec_renders() ==> final(mount).product() == old(mount).product() && *final(doc) == *old(doc))
                &&& (o.spec_renders() ==> final(mount).rendered() && V::same_place(
                    &old(mount).product(),
                    &final(mount).product(),
                ))
            },
{
    dispatch(&bound.callback, bound.epoch, event, mount, doc);
    proof {
        if old(mount).live(bound.spec_epoch()) {
            let (s2, o) = choose|s2: S, o: O|
                {
                    &&& #[trigger] call_ensures(bound.callback, (old(mount).state(), event), (s2, o))
                    &&& mount.state() == s2
                    &&& (!o.spec_renders() ==> mount.product() == old(mount).product() && *doc
                        == *old(doc))
                    &&& (o.spec_renders() ==> mount.rendered())
                };
            assert(call_ensures(bound.spec_callback(), (old(mount).state(), event), (s2, o)));
        }
    }
}

} // verus!
