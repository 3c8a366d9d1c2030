//! A worked composition of the runtime's contracts: the counter scenario,
//! carried end to end by the verifier. Every assertion below is discharged
//! from the public contracts alone — mount a counter whose render function
//! shows its state, fire two rendering events, then one that mutates but
//! skips: the displayed text follows the first two and stays put on the
//! third, on the same text node throughout.

use vstd::prelude::*;

use crate::dom::Document;
use crate::stateful::{fire, lemma_rendered_meaning, Hook, Mount};
use crate::value::dec_int;
use crate::view::Html;
use crate::ShouldRender;

verus! {

pub fn counter() {
    let mut doc = Document::new();
    let render = |h: &Hook<i32>| -> (v: i32)
        requires
            h.readable(),
        ensures
            v == h.spec_state(),
        { h.get() };
    let mut mount = Mount::new(0i32, render, 1u64, &mut doc);
    let ghost node = mount.product().spec_el().node_id();
    assert(mount.state() == 0);
    proof {
        lemma_rendered_meaning(&mount, &doc);
        let (h, v) = choose|h: Hook<i32>, v: i32|
            h.readable() && h.spec_state() == mount.state() && #[trigger] call_ensures(
                mount.render_fn(),
                (&h,),
                v,
            ) && v.same(&mount.product());
        assert(v == 0);
        assert(doc.text_of(node) == dec_int(0));
    }

    let incr = |s: i32, _e: ()| -> (r: (i32, ShouldRender))
        requires
            s < 100,
        ensures
            r.0 == s + 1 && r.1 == ShouldRender::Render,
        { (s + 1, ShouldRender::Render) };
    let bound = mount.bind(incr);

    fire(&bound, (), &mut mount, &mut doc);
    assert(mount.state() == 1);
    proof {
        assert(mount.product().spec_el().node_id() == node);
        lemma_rendered_meaning(&mount, &doc);
        let (h, v) = choose|h: Hook<i32>, v: i32|
            h.readable() && h.spec_state() == mount.state() && #[trigger] call_ensures(
                mount.render_fn(),
                (&h,),
                v,
            ) && v.same(&mount.product());
        assert(v == 1);
        assert(doc.text_of(node) == dec_int(1));
    }

    fire(&bound, (), &mut mount, &mut doc);
    assert(mount.state() == 2);
    proof {
        assert(mount.product().spec_el().node_id() == node);
        lemma_rendered_meaning(&mount, &doc);
        let (h, v) = choose|h: Hook<i32>, v: i32|
            h.readable() && h.spec_state() == mount.state() && #[trigger] call_ensures(
                mount.render_fn(),
                (&h,),
                v,
            ) && v.same(&mount.product());
        assert(v == 2);
        assert(doc.text_of(node) == dec_int(2));
    }

    let ghost doc2 = doc;
    let skip = |s: i32, _e: ()| -> (r: (i32, ShouldRender))
        ensures
            r == (3i32, ShouldRender::Skip),
        { (3, ShouldRender::Skip) };
    let bound2 = mount.bind(skip);
    fire(&bound2, (), &mut mount, &mut doc);
    assert(mount.state() == 3);
    assert(doc == doc2);
    assert(doc.text_of(node) == dec_int(2));
}

} // verus!
