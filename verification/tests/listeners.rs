//! Tests of the callback binding layer: listener identity across renders.

use std::cell::RefCell;
use std::rc::Rc;

use kobold::dom::Document;
use kobold::stateful::ctx::Context;
use kobold::stateful::{Hook, Mount};
use kobold::view::{Html, Mountable};
use kobold::ShouldRender;

type Cb = fn(i32, ()) -> (i32, ShouldRender);

fn add_one(s: i32, _e: ()) -> (i32, ShouldRender) {
    (s + 1, ShouldRender::Render)
}

fn add_ten(s: i32, _e: ()) -> (i32, ShouldRender) {
    (s + 10, ShouldRender::Render)
}

fn mount_counter(
    doc: &mut Document,
    epoch: u64,
) -> (Mount<i32, i32, impl Fn(&Hook<i32>) -> i32>, Context<i32>, usize) {
    let cell: Rc<RefCell<Option<Context<i32>>>> = Rc::new(RefCell::new(None));
    let c = cell.clone();
    let render = move |h: &Hook<i32>| -> i32 {
        *c.borrow_mut() = Some(h.context());
        h.get()
    };
    let mount = Mount::new(0i32, render, epoch, doc);
    let node = mount.product_ref().unwrap().el().anchor();
    let cx = cell.borrow_mut().take().unwrap();
    (mount, cx, node)
}

#[test]
fn rebinding_keeps_the_registered_listener() {
    let mut doc = Document::new();
    let (mut mount, cx, node) = mount_counter(&mut doc, 1);

    let first = cx.bind(add_one as Cb);
    let mut product = Html::build(first, &mut doc);
    let listener = product.js();
    let registered = doc.listeners_registered();

    // A later render pass binds a different payload to the same slot: the
    // native listener object must stay, only the payload may change.
    let second = cx.bind(add_ten as Cb);
    Html::update(second, &mut product, &mut doc);
    assert_eq!(product.js(), listener);
    assert_eq!(doc.listeners_registered(), registered);

    // Firing the listener now runs the rebound payload.
    product.fire((), &mut mount, &mut doc);
    assert_eq!(doc.text(node).as_str(), "10");
}

#[test]
fn each_binding_registers_once() {
    let mut doc = Document::new();
    let (_mount, cx, _node) = mount_counter(&mut doc, 2);

    assert_eq!(doc.listeners_registered(), 0);
    let a = Html::build(cx.bind(add_one as Cb), &mut doc);
    let b = Html::build(cx.bind(add_ten as Cb), &mut doc);
    assert_eq!(doc.listeners_registered(), 2);
    assert_ne!(a.js(), b.js());
}

#[test]
fn dead_listener_product_is_a_no_op() {
    let mut doc = Document::new();
    let (mut mount, cx, node) = mount_counter(&mut doc, 3);
    let product = Html::build(cx.bind(add_one as Cb), &mut doc);
    mount.unmount();
    product.fire((), &mut mount, &mut doc);
    assert_eq!(doc.text(node).as_str(), "0");
}
