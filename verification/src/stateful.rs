//! The state container and its access discipline.
//!
//! An [`Inner`] pairs application state with the mounted product built from
//! it and the render function that describes it. A [`Mount`] owns an `Inner`
//! behind an explicit liveness epoch: once the component unmounts, handles
//! carrying the old epoch find the slot dead and turn into no-ops.
//!
//! State sits in a [`StateCell`], an explicit access guard: an exclusive
//! acquisition empties the cell and a release refills it, so a second
//! acquisition - and any shared read - while a loan is open is ruled out by
//! the acquisition's own precondition. This codifies the single-threaded,
//! non-reentrant dispatch model: no mutator may synchronously invoke another
//! mutator on the same state, and no loan is held across a suspension. The
//! verifier discharges that condition at every acquisition site, so the
//! conflict abort the runtime would owe on misuse is proven unreachable in
//! this crate's own dispatch paths.

pub mod ctx;
pub mod hook;

pub use hook::{
    fire, lemma_dispatch_ready, lemma_mount_wf_preserved, lemma_rendered_meaning, Bound, Hook,
    Inner, Mount, Signal, StateCell,
};
