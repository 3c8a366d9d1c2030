//! A reactive UI runtime core: declarative descriptions are built once into a
//! mounted presentation tree and thereafter patched in place on state change,
//! without tree diffing — each mounted position has a fixed update path.
//!
//! - [`view`] holds the build-once/patch-in-place protocol every renderable
//!   description implements, with its laws as verified contracts.
//! - [`dom`] holds the primitive-node store and the mounted-node handles:
//!   single elements and anchored fragment ranges.
//! - [`stateful`] holds the state container, its exclusive-access
//!   discipline, the read and write handles onto it, and event dispatch.
//! - [`value`] renders primitive values — strings, booleans, integers — as
//!   change-gated text nodes.

use vstd::prelude::*;

pub mod dom;
pub mod scenario;
pub mod stateful;
pub mod value;
pub mod view;

verus! {

/// Decision value returned by a state mutator: whether the mutation should
/// trigger a re-render of the mounted presentation.
#[derive(Clone, Copy, PartialEq, Eq, Structural, Debug)]
pub enum ShouldRender {
    Render,
    Skip,
}

impl ShouldRender {
    /// True when this decision asks for a re-render.
    pub open spec fn spec_should_render(&self) -> bool {
        *self == ShouldRender::Render
    }

    /// Whether a re-render is required.
    pub fn should_render(&self) -> (r: bool)
        ensures
            r == self.spec_should_render(),
    {
        match self {
            ShouldRender::Render => true,
            ShouldRender::Skip => false,
        }
    }
}

/// What a mutator's return value decides about re-rendering. A decision is
/// read off a [`ShouldRender`] directly, off `bool` (`true` renders), or off
/// `()` (a unit-returning mutator always renders).
pub trait Decision: Sized {
    /// Whether this value asks for a re-render.
    spec fn spec_renders(&self) -> bool;

    /// Read the decision off.
    fn renders(self) -> (r: bool)
        ensures
            r == self.spec_renders(),
    ;
}

impl Decision for ShouldRender {
    open spec fn spec_renders(&self) -> bool {
        self.spec_should_render()
    }

    fn renders(self) -> bool {
        self.should_render()
    }
}

impl Decision for bool {
    open spec fn spec_renders(&self) -> bool {
        *self
    }

    fn renders(self) -> bool {
        self
    }
}

impl Decision for () {
    open spec fn spec_renders(&self) -> bool {
        true
    }

    fn renders(self) -> bool {
        true
    }
}

} // verus!
