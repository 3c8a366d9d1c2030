//! Tests of the state container, handles, and event dispatch.

use std::cell::RefCell;
use std::rc::Rc;

use kobold::dom::Document;
use kobold::stateful::{fire, Bound, Hook, Mount, Signal};
use kobold::view::Mountable;
use kobold::ShouldRender;

type Cb = fn(i32, ()) -> (i32, ShouldRender);

fn incr(s: i32, _e: ()) -> (i32, ShouldRender) {
    (s + 1, ShouldRender::Render)
}

fn incr_silently(s: i32, _e: ()) -> (i32, ShouldRender) {
    (s + 1, ShouldRender::Skip)
}

#[test]
fn counter_two_renders_then_skip() {
    let mut doc = Document::new();
    let render_bound: Rc<RefCell<Option<Bound<i32, Cb>>>> = Rc::new(RefCell::new(None));
    let skip_bound: Rc<RefCell<Option<Bound<i32, Cb>>>> = Rc::new(RefCell::new(None));
    let rb = render_bound.clone();
    let sb = skip_bound.clone();
    let render = move |h: &Hook<i32>| -> i32 {
        *rb.borrow_mut() = Some(h.bind(incr as Cb));
        *sb.borrow_mut() = Some(h.bind(incr_silently as Cb));
        h.get()
    };
    let mut mount = Mount::new(0i32, render, 1u64, &mut doc);
    let text_node = mount.product_ref().unwrap().el().anchor();
    assert_eq!(doc.text(text_node).as_str(), "0");

    let bound = render_bound.borrow_mut().take().unwrap();
    fire(&bound, (), &mut mount, &mut doc);
    assert_eq!(doc.text(text_node).as_str(), "1");
    fire(&bound, (), &mut mount, &mut doc);
    assert_eq!(doc.text(text_node).as_str(), "2");

    // The third firing mutates the count to 3 but decides Skip: the
    // displayed text must stay at "2".
    let silent = skip_bound.borrow_mut().take().unwrap();
    fire(&silent, (), &mut mount, &mut doc);
    assert_eq!(doc.text(text_node).as_str(), "2");

    // The next rendering firing shows the state the skip left behind.
    fire(&bound, (), &mut mount, &mut doc);
    assert_eq!(doc.text(text_node).as_str(), "4");
}

#[test]
fn verified_counter_scenario_runs() {
    // The same scenario, already carried by the verifier from the contracts
    // alone; here it is also executed.
    kobold::scenario::counter();
}

#[test]
fn bound_callback_is_copy() {
    let mut doc = Document::new();
    let cell: Rc<RefCell<Option<Bound<i32, Cb>>>> = Rc::new(RefCell::new(None));
    let c = cell.clone();
    let render = move |h: &Hook<i32>| -> i32 {
        *c.borrow_mut() = Some(h.bind(incr as Cb));
        h.get()
    };
    let _mount = Mount::new(0i32, render, 1u64, &mut doc);
    let mock = cell.borrow_mut().take().unwrap();

    // Make sure we can copy the mock twice
    drop([mock, mock]);
}

fn capture_signal(doc: &mut Document, epoch: u64) -> (Mount<i32, i32, impl Fn(&Hook<i32>) -> i32>, Signal<i32>, usize) {
    let cell: Rc<RefCell<Option<Signal<i32>>>> = Rc::new(RefCell::new(None));
    let c = cell.clone();
    let render = move |h: &Hook<i32>| -> i32 {
        *c.borrow_mut() = Some(h.signal());
        h.get()
    };
    let mount = Mount::new(0i32, render, epoch, doc);
    let node = mount.product_ref().unwrap().el().anchor();
    let sig = cell.borrow_mut().take().unwrap();
    (mount, sig, node)
}

#[test]
fn signal_update_renders_on_render_decision() {
    let mut doc = Document::new();
    let (mut mount, sig, node) = capture_signal(&mut doc, 3);
    sig.update(|s: i32| (s + 5, ShouldRender::Render), &mut mount, &mut doc);
    assert_eq!(doc.text(node).as_str(), "5");
    sig.update(|s: i32| (s - 1, ShouldRender::Skip), &mut mount, &mut doc);
    assert_eq!(doc.text(node).as_str(), "5");
    sig.update(|s: i32| (s, ShouldRender::Render), &mut mount, &mut doc);
    assert_eq!(doc.text(node).as_str(), "4");
}

#[test]
fn signal_update_silent_never_renders() {
    let mut doc = Document::new();
    let (mut mount, sig, node) = capture_signal(&mut doc, 4);
    sig.update_silent(|s: i32| s + 9, &mut mount);
    assert_eq!(doc.text(node).as_str(), "0");
    // the silent change is visible on the next rendering pass
    sig.update(|s: i32| (s, ShouldRender::Render), &mut mount, &mut doc);
    assert_eq!(doc.text(node).as_str(), "9");
}

#[test]
fn signal_set_replaces_and_renders() {
    let mut doc = Document::new();
    let (mut mount, sig, node) = capture_signal(&mut doc, 5);
    sig.set(42, &mut mount, &mut doc);
    assert_eq!(doc.text(node).as_str(), "42");
}

#[test]
fn dead_signal_is_a_no_op() {
    let mut doc = Document::new();
    let (mut mount, sig, node) = capture_signal(&mut doc, 6);
    sig.set(1, &mut mount, &mut doc);
    assert_eq!(doc.text(node).as_str(), "1");

    mount.unmount();
    let nodes = doc.nodes_created();

    // None of these may fail, and none may touch the document.
    sig.update(|s: i32| (s + 100, ShouldRender::Render), &mut mount, &mut doc);
    sig.update_silent(|s: i32| s + 100, &mut mount);
    sig.set(77, &mut mount, &mut doc);

    assert_eq!(doc.text(node).as_str(), "1");
    assert_eq!(doc.nodes_created(), nodes);
    assert!(mount.product_ref().is_none());
}

#[test]
fn decisions_derive_from_bool_and_unit() {
    let mut doc = Document::new();
    let (mut mount, sig, node) = capture_signal(&mut doc, 10);

    // true renders, false does not
    sig.update(|s: i32| (s + 1, true), &mut mount, &mut doc);
    assert_eq!(doc.text(node).as_str(), "1");
    sig.update(|s: i32| (s + 1, false), &mut mount, &mut doc);
    assert_eq!(doc.text(node).as_str(), "1");

    // a unit-returning mutator always renders
    sig.update(|s: i32| (s + 1, ()), &mut mount, &mut doc);
    assert_eq!(doc.text(node).as_str(), "3");
}

#[test]
fn stale_epoch_signal_is_a_no_op() {
    let mut doc = Document::new();
    let (mut stale_mount, stale_sig, _) = capture_signal(&mut doc, 7);
    stale_mount.unmount();

    // A fresh mount occupies a new epoch; the stale signal must not reach it.
    let (mut mount, _sig, node) = capture_signal(&mut doc, 8);
    stale_sig.set(99, &mut mount, &mut doc);
    assert_eq!(doc.text(node).as_str(), "0");
}

#[test]
fn dead_bound_listener_is_a_no_op() {
    let mut doc = Document::new();
    let cell: Rc<RefCell<Option<Bound<i32, Cb>>>> = Rc::new(RefCell::new(None));
    let c = cell.clone();
    let render = move |h: &Hook<i32>| -> i32 {
        *c.borrow_mut() = Some(h.bind(incr as Cb));
        h.get()
    };
    let mut mount = Mount::new(0i32, render, 9u64, &mut doc);
    let node = mount.product_ref().unwrap().el().anchor();
    let bound = cell.borrow_mut().take().unwrap();
    mount.unmount();
    fire(&bound, (), &mut mount, &mut doc);
    assert_eq!(doc.text(node).as_str(), "0");
}
