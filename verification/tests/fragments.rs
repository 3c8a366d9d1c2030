//! Tests of fragment mounting: the tail anchor survives every append and
//! removal, and stays the usable append position.

use kobold::dom::{Document, Element, Fragment, NodeKind};

#[test]
fn fragment_anchor_survives_append_and_removal() {
    let mut doc = Document::new();
    let frag = Fragment::new(&mut doc);
    let container = frag.el().anchor();
    let tail = frag.tail();
    assert_eq!(doc.child_count(container), 1);
    assert_eq!(doc.child_at(container, 0), tail);

    let mut children = Vec::new();
    for _ in 0..3 {
        let el = Element::new_empty(&mut doc);
        frag.append(el.anchor(), &mut doc);
        children.push(el);
    }
    assert_eq!(doc.child_count(container), 4);
    // the anchor is still the last child
    assert_eq!(doc.child_at(container, 3), tail);

    for el in &children {
        el.unmount(&mut doc);
    }

    // Everything appended is gone; the tail anchor is still present,
    // still owned by the container, and still an anchor.
    assert_eq!(doc.child_count(container), 1);
    assert_eq!(doc.child_at(container, 0), tail);
    assert_eq!(doc.parent(tail), Some(container));
    assert_eq!(doc.kind(tail), NodeKind::Anchor);

    // ... and still usable as the append position.
    let el = Element::new_text("again", &mut doc);
    frag.append(el.anchor(), &mut doc);
    assert_eq!(doc.child_count(container), 2);
    assert_eq!(doc.child_at(container, 0), el.anchor());
    assert_eq!(doc.child_at(container, 1), tail);
}

#[test]
fn append_inserts_before_the_tail_in_order() {
    let mut doc = Document::new();
    let frag = Fragment::new(&mut doc);
    let container = frag.el().anchor();
    let a = Element::new_text("a", &mut doc);
    let b = Element::new_text("b", &mut doc);
    frag.append(a.anchor(), &mut doc);
    frag.append(b.anchor(), &mut doc);
    assert_eq!(doc.child_at(container, 0), a.anchor());
    assert_eq!(doc.child_at(container, 1), b.anchor());
    assert_eq!(doc.child_at(container, 2), frag.tail());
}

#[test]
fn replace_with_swaps_in_place() {
    let mut doc = Document::new();
    let frag = Fragment::new(&mut doc);
    let container = frag.el().anchor();
    let a = Element::new_text("a", &mut doc);
    let b = Element::new_text("b", &mut doc);
    frag.append(a.anchor(), &mut doc);
    let c = Element::new_text("c", &mut doc);
    frag.append(c.anchor(), &mut doc);

    a.replace_with(b.anchor(), &mut doc);
    assert_eq!(doc.child_at(container, 0), b.anchor());
    assert_eq!(doc.child_at(container, 1), c.anchor());
    assert_eq!(doc.child_at(container, 2), frag.tail());
    assert_eq!(doc.parent(a.anchor()), None);
    assert_eq!(doc.parent(b.anchor()), Some(container));
}

#[test]
fn set_text_rewrites_in_place() {
    let mut doc = Document::new();
    let el = Element::new_text("before", &mut doc);
    assert_eq!(doc.text(el.anchor()).as_str(), "before");
    el.set_text("after", &mut doc);
    assert_eq!(doc.text(el.anchor()).as_str(), "after");
}

#[test]
fn wrapping_an_existing_node() {
    let mut doc = Document::new();
    let node = doc.create_text_node("wrapped");
    let el = Element::new(node, &doc);
    assert_eq!(el.anchor(), node);
    assert_eq!(el.js(), node);
    el.set_text("rewritten", &mut doc);
    assert_eq!(doc.text(node).as_str(), "rewritten");
}

#[test]
fn raw_fragment_gets_an_anchor() {
    let mut doc = Document::new();
    let node = doc.create_fragment_node();
    let el = Element::new_fragment_raw(node, &mut doc);
    assert_eq!(doc.child_count(node), 1);
    assert_eq!(doc.kind(doc.child_at(node, 0)), NodeKind::Anchor);
    el.release(&mut doc);
}
