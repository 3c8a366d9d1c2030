//! The build-once/patch-in-place protocol.
//!
//! A description value is immutable and comparable; it is consumed once by
//! [`Html::build`], which mounts it, and on every later render pass by
//! [`Html::update`], which patches the mounted product in place. There is no
//! error channel: malformed descriptions are rejected upstream, before they
//! reach this protocol.

use vstd::prelude::*;

use crate::dom::{Document, Element};

verus! {

/// A renderable description value.
///
/// The trait carries the protocol's laws: after `build` or `update` the
/// product's memo matches the description just applied, and an `update` with
/// a description matching the memo performs no primitive call at all — the
/// document and the product come out exactly as they went in.
pub trait Html: Sized {
    /// The mounted, stateful result of building a description.
    type Product;

    /// The product is a well-formed mounted representation in `doc`.
    spec fn wf(p: &Self::Product, doc: &Document) -> bool;

    /// The change gate: description `self` matches the value last applied to
    /// `p`, so applying it again must change nothing.
    spec fn same(&self, p: &Self::Product) -> bool;

    /// The two products occupy one mounted place — the same node, or the
    /// same registered listener. Updates patch in place and never move a
    /// product: each mounted position has a fixed update path.
    spec fn same_place(p0: &Self::Product, p1: &Self::Product) -> bool;

    /// Mount the description. Called exactly once per mount point.
    fn build(self, doc: &mut Document) -> (p: Self::Product)
        requires
            old(doc).wf(),
        ensures
            final(doc).wf(),
            Self::wf(&p, final(doc)),
            self.same(&p),
    ;

    /// Patch the mounted product in place so it represents `self`. When the
    /// description equals the memo, nothing happens: zero mutating primitive
    /// calls, document and product untouched.
    fn update(self, p: &mut Self::Product, doc: &mut Document)
        requires
            old(doc).wf(),
            Self::wf(old(p), old(doc)),
        ensures
            final(doc).wf(),
            Self::wf(final(p), final(doc)),
            self.same(final(p)),
            Self::same_place(old(p), final(p)),
            self.same(old(p)) ==> *final(p) == *old(p) && *final(doc) == *old(doc),
    ;

    /// The frame law of the protocol: a product stays well-formed under any
    /// document change that leaves every node it existed over unchanged —
    /// other components may build and update around it freely.
    proof fn wf_preserved(p: &Self::Product, d0: &Document, d1: &Document)
        requires
            Self::wf(p, d0),
            d0.node_count() <= d1.node_count(),
            forall|j: int| 0 <= j < d0.node_count() ==> #[trigger] d1.node_unchanged(d0, j),
        ensures
            Self::wf(p, d1),
    ;
}

/// A product that may anchor itself in the tree.
pub trait Mountable {
    /// Whether this product has a mounted element of its own. A product that
    /// stands for a pure listener binding has none, and asking it for one is
    /// a template defect upstream, proven unreachable here.
    spec fn has_el(&self) -> bool;

    /// The element anchoring this product in the tree.
    fn el(&self) -> &Element
        requires
            self.has_el(),
    ;

    /// The raw handle a parent hands to the primitive node API.
    fn js(&self) -> usize;
}

impl Mountable for Element {
    open spec fn has_el(&self) -> bool {
        true
    }

    fn el(&self) -> (el: &Element)
        ensures
            *el == *self,
    {
        self
    }

    fn js(&self) -> (id: usize)
        ensures
            id as int == self.node_id(),
    {
        self.anchor()
    }
}

} // verus!
