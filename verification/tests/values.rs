//! Tests of primitive value rendering: exact representations, change-gated
//! updates, and the idempotence of updating with an unchanged description.

use kobold::dom::Document;
use kobold::value::{StrCmp, Stringify};
use kobold::view::{Html, Mountable};

fn render<T: Stringify>(v: T) -> String {
    v.stringify(|s| s.to_string())
}

#[test]
fn integers_render_in_decimal() {
    assert_eq!(render(0u32), "0");
    assert_eq!(render(1234u64), "1234");
    assert_eq!(render(-56i32), "-56");
    assert_eq!(render(u64::MAX), "18446744073709551615");
    assert_eq!(render(i64::MIN), "-9223372036854775808");
    assert_eq!(render(u128::MAX), "340282366920938463463374607431768211455");
    assert_eq!(render(255u8), "255");
    assert_eq!(render(-128i8), "-128");
    assert_eq!(render(9usize), "9");
    assert_eq!(render(-9isize), "-9");
}

#[test]
fn booleans_and_strings_render_as_themselves() {
    assert_eq!(render(true), "true");
    assert_eq!(render(false), "false");
    assert_eq!(render("plain"), "plain");
}

#[test]
fn strcmp_separates_different_strings() {
    assert_eq!(StrCmp::from("a"), StrCmp::from("a"));
    assert_ne!(StrCmp::from("a"), StrCmp::from("b"));
    assert_eq!(StrCmp::from(""), StrCmp::from(""));
    assert_ne!(StrCmp::from(""), StrCmp::from("a"));
}

#[test]
fn string_update_is_idempotent() {
    let mut doc = Document::new();
    let mut p = Html::build(String::from("hello"), &mut doc);
    let node = p.el().anchor();
    let nodes = doc.nodes_created();
    assert_eq!(doc.text(node).as_str(), "hello");

    // Updating with an equal description performs no primitive call.
    Html::update(String::from("hello"), &mut p, &mut doc);
    assert_eq!(doc.text(node).as_str(), "hello");
    assert_eq!(doc.nodes_created(), nodes);

    Html::update(String::from("world"), &mut p, &mut doc);
    assert_eq!(doc.text(node).as_str(), "world");
}

#[test]
fn borrowed_str_update_is_idempotent() {
    let mut doc = Document::new();
    let mut p = Html::build("alpha", &mut doc);
    let node = p.el().anchor();
    assert_eq!(doc.text(node).as_str(), "alpha");

    Html::update("alpha", &mut p, &mut doc);
    assert_eq!(doc.text(node).as_str(), "alpha");

    Html::update("beta", &mut p, &mut doc);
    assert_eq!(doc.text(node).as_str(), "beta");
}

#[test]
fn borrowed_string_update_follows_changes() {
    let mut doc = Document::new();
    let one = String::from("one");
    let two = String::from("two");
    let mut p = Html::build(&one, &mut doc);
    let node = p.el().anchor();
    assert_eq!(doc.text(node).as_str(), "one");
    Html::update(&two, &mut p, &mut doc);
    assert_eq!(doc.text(node).as_str(), "two");
}

#[test]
fn number_views_render_and_gate_updates() {
    let mut doc = Document::new();
    let mut p = Html::build(7i32, &mut doc);
    let node = p.el().anchor();
    assert_eq!(doc.text(node).as_str(), "7");

    let nodes = doc.nodes_created();
    Html::update(7i32, &mut p, &mut doc);
    assert_eq!(doc.nodes_created(), nodes);
    assert_eq!(doc.text(node).as_str(), "7");

    Html::update(-8i32, &mut p, &mut doc);
    assert_eq!(doc.text(node).as_str(), "-8");
}

#[test]
fn bool_view_renders_both_values() {
    let mut doc = Document::new();
    let mut p = Html::build(true, &mut doc);
    let node = p.el().anchor();
    assert_eq!(doc.text(node).as_str(), "true");
    Html::update(false, &mut p, &mut doc);
    assert_eq!(doc.text(node).as_str(), "false");
}
