//! Primitive value descriptions: strings, booleans and integers rendered as
//! text nodes, with change-gated in-place updates.

use vstd::prelude::*;

use std::hash::{Hash, Hasher};

use crate::dom::{Document, Element, NodeKind};
use crate::view::{Html, Mountable};

verus! {

/// The decimal digit character for `d`.
pub open spec fn dec_digit(d: nat) -> char {
    (((d + 48) as u8) as char)
}

/// The decimal digits of `n`, most significant first.
pub open spec fn dec_nat(n: nat) -> Seq<char>
    decreases n,
{
    if n < 10 {
        seq![dec_digit(n)]
    } else {
        dec_nat(n / 10).push(dec_digit(n % 10))
    }
}

/// The decimal rendering of `v`, with a leading '-' when negative.
pub open spec fn dec_int(v: int) -> Seq<char> {
    if v < 0 {
        seq!['-'] + dec_nat((-v) as nat)
    } else {
        dec_nat(v as nat)
    }
}

/// Relies on itoa::Buffer::format for i128: it prints exactly the decimal
/// digits of the value, with a leading '-' when it is negative.
#[verifier::external_body]
fn itoa_format_i128(v: i128) -> (r: String)
    ensures
        r@ == dec_int(v as int),
{
    let mut buf = itoa::Buffer::new();
    buf.format(v).to_owned()
}

/// Relies on itoa::Buffer::format for u128: it prints exactly the decimal
/// digits of the value.
#[verifier::external_body]
fn itoa_format_u128(v: u128) -> (r: String)
    ensures
        r@ == dec_nat(v as nat),
{
    let mut buf = itoa::Buffer::new();
    buf.format(v).to_owned()
}

/// The 64-bit hash that fnv::FnvHasher assigns to a string.
pub uninterp spec fn fnv_of(s: Seq<char>) -> u64;

/// Relies on fnv::FnvHasher, driven through str's Hash impl and read out by
/// Hasher::finish: the FNV-1a hash of the string's bytes, unkeyed, so a
/// function of the characters alone.
#[verifier::external_body]
fn fnv_hash(s: &str) -> (h: u64)
    ensures
        h == fnv_of(s@),
{
    let mut hasher = fnv::FnvHasher::default();
    s.hash(&mut hasher);
    hasher.finish()
}

/// A value that renders as borrowed text.
pub trait Stringify {
    /// The characters this value renders as.
    spec fn spec_repr(&self) -> Seq<char>;

    /// Hand the rendering to `f` and return what it returns.
    fn stringify<F: FnOnce(&str) -> R, R>(&self, f: F) -> (r: R)
        requires
            forall|s: &str| s@ == self.spec_repr() ==> #[trigger] call_requires(f, (s,)),
        ensures
            exists|s: &str| s@ == self.spec_repr() && #[trigger] call_ensures(f, (s,), r),
    ;
}

impl Stringify for &'static str {
    open spec fn spec_repr(&self) -> Seq<char> {
        (*self)@
    }

    fn stringify<F: FnOnce(&str) -> R, R>(&self, f: F) -> (r: R) {
        let s: &str = *self;
        proof {
            assert(call_requires(f, (s,)));
        }
        f(s)
    }
}

impl Stringify for bool {
    open spec fn spec_repr(&self) -> Seq<char> {
        if *self {
            "true"@
        } else {
            "false"@
        }
    }

    fn stringify<F: FnOnce(&str) -> R, R>(&self, f: F) -> (r: R) {
        let s: &str = if *self {
            "true"
        } else {
            "false"
        };
        proof {
            assert(call_requires(f, (s,)));
        }
        f(s)
    }
}

/// A cheap comparison memo for borrowed strings: only the hash of the text
/// is kept, enough to gate updates without owning a copy.
#[derive(PartialEq, Eq, Structural, Clone, Copy, Debug)]
pub struct StrCmp {
    hash: u64,
}

impl StrCmp {
    /// The stored hash.
    pub closed spec fn spec_hash(&self) -> u64 {
        self.hash
    }
}

impl From<&str> for StrCmp {
    fn from(s: &str) -> (r: StrCmp)
        ensures
            r.spec_hash() == fnv_of(s@),
    {
        StrCmp { hash: fnv_hash(s) }
    }
}

impl vstd::std_specs::convert::FromSpecImpl<&str> for StrCmp {
    closed spec fn obeys_from_spec() -> bool {
        true
    }

    closed spec fn from_spec(s: &str) -> StrCmp {
        StrCmp { hash: fnv_of(s@) }
    }
}

/// The mounted product of a primitive value: the memo of the value last
/// applied and the text node displaying it.
pub struct ValueProduct<T> {
    value: T,
    el: Element,
}

impl<T> ValueProduct<T> {
    /// The memo last applied.
    pub closed spec fn spec_value(&self) -> T {
        self.value
    }

    /// The text node displaying the value.
    pub closed spec fn spec_el(&self) -> Element {
        self.el
    }
}

impl<T> Mountable for ValueProduct<T> {
    open spec fn has_el(&self) -> bool {
        true
    }

    fn el(&self) -> (el: &Element)
        ensures
            *el == self.spec_el(),
    {
        &self.el
    }

    fn js(&self) -> (id: usize)
        ensures
            id as int == self.spec_el().node_id(),
    {
        self.el.js()
    }
}

/// The product's element is a live text node showing exactly `text`.
pub open spec fn shows<T>(p: &ValueProduct<T>, doc: &Document, text: Seq<char>) -> bool {
    &&& p.spec_el().wf(doc)
    &&& !p.spec_el().is_fragment()
    &&& doc.kind_of(p.spec_el().node_id()) == NodeKind::Text
    &&& doc.text_of(p.spec_el().node_id()) == text
}

impl Html for String {
    type Product = ValueProduct<String>;

    open spec fn wf(p: &ValueProduct<String>, doc: &Document) -> bool {
        shows(p, doc, p.spec_value()@)
    }

    open spec fn same(&self, p: &ValueProduct<String>) -> bool {
        p.spec_value()@ == self@
    }

    open spec fn same_place(p0: &ValueProduct<String>, p1: &ValueProduct<String>) -> bool {
        p0.spec_el() == p1.spec_el()
    }

    fn build(self, doc: &mut Document) -> (p: ValueProduct<String>)
        ensures
            p.spec_el().node_id() == old(doc).node_count(),
            final(doc).node_count() == old(doc).node_count() + 1,
            final(doc).mutation_count() == old(doc).mutation_count() + 1,
            final(doc).listener_count() == old(doc).listener_count(),
            forall|j: int|
                0 <= j < old(doc).node_count() ==> final(doc).node_unchanged(old(doc), j),
    {
        let el = Element::new_text(self.as_str(), doc);
        ValueProduct { value: self, el }
    }

    fn update(self, p: &mut ValueProduct<String>, doc: &mut Document)
        ensures
            final(p).spec_el() == old(p).spec_el(),
            final(doc).node_count() == old(doc).node_count(),
            final(doc).listener_count() == old(doc).listener_count(),
            !self.same(old(p)) ==> final(doc).mutation_count() == old(doc).mutation_count() + 1,
            forall|j: int|
                0 <= j < old(doc).node_count() && j != old(p).spec_el().node_id() ==> final(doc).node_unchanged(old(doc), j),
    {
        if !(p.value == self) {
            p.value = self;
            p.el.set_text(p.value.as_str(), doc);
        }
    }

    proof fn wf_preserved(p: &ValueProduct<String>, d0: &Document, d1: &Document) {
        assert(d1.node_unchanged(d0, p.spec_el().node_id()));
    }
}

impl<'a> Html for &'a String {
    type Product = ValueProduct<String>;

    open spec fn wf(p: &ValueProduct<String>, doc: &Document) -> bool {
        shows(p, doc, p.spec_value()@)
    }

    open spec fn same(&self, p: &ValueProduct<String>) -> bool {
        p.spec_value()@ == (*self)@
    }

    open spec fn same_place(p0: &ValueProduct<String>, p1: &ValueProduct<String>) -> bool {
        p0.spec_el() == p1.spec_el()
    }

    fn build(self, doc: &mut Document) -> (p: ValueProduct<String>)
        ensures
            p.spec_el().node_id() == old(doc).node_count(),
            final(doc).node_count() == old(doc).node_count() + 1,
            final(doc).mutation_count() == old(doc).mutation_count() + 1,
            final(doc).listener_count() == old(doc).listener_count(),
            forall|j: int|
                0 <= j < old(doc).node_count() ==> final(doc).node_unchanged(old(doc), j),
    {
        let el = Element::new_text(self.as_str(), doc);
        ValueProduct { value: self.clone(), el }
    }

    fn update(self, p: &mut ValueProduct<String>, doc: &mut Document)
        ensures
            final(p).spec_el() == old(p).spec_el(),
            final(doc).node_count() == old(doc).node_count(),
            final(doc).listener_count() == old(doc).listener_count(),
            !self.same(old(p)) ==> final(doc).mutation_count() == old(doc).mutation_count() + 1,
            forall|j: int|
                0 <= j < old(doc).node_count() && j != old(p).spec_el().node_id() ==> final(doc).node_unchanged(old(doc), j),
    {
        if !(p.value == *self) {
            p.value = self.clone();
            p.el.set_text(p.value.as_str(), doc);
        }
    }

    proof fn wf_preserved(p: &ValueProduct<String>, d0: &Document, d1: &Document) {
        assert(d1.node_unchanged(d0, p.spec_el().node_id()));
    }
}

impl<'a> Html for &'a str {
    type Product = ValueProduct<StrCmp>;

    open spec fn wf(p: &ValueProduct<StrCmp>, doc: &Document) -> bool {
        exists|t: Seq<char>| shows(p, doc, t) && fnv_of(t) == p.spec_value().spec_hash()
    }

    open spec fn same(&self, p: &ValueProduct<StrCmp>) -> bool {
        p.spec_value().spec_hash() == fnv_of((*self)@)
    }

    open spec fn same_place(p0: &ValueProduct<StrCmp>, p1: &ValueProduct<StrCmp>) -> bool {
        p0.spec_el() == p1.spec_el()
    }

    fn build(self, doc: &mut Document) -> (p: ValueProduct<StrCmp>)
        ensures
            p.spec_el().node_id() == old(doc).node_count(),
            final(doc).node_count() == old(doc).node_count() + 1,
            final(doc).mutation_count() == old(doc).mutation_count() + 1,
            final(doc).listener_count() == old(doc).listener_count(),
            forall|j: int|
                0 <= j < old(doc).node_count() ==> final(doc).node_unchanged(old(doc), j),
            final(doc).text_of(p.spec_el().node_id()) == (*self)@,
    {
        let el = Element::new_text(self, doc);
        ValueProduct { value: StrCmp::from(self), el }
    }

    fn update(self, p: &mut ValueProduct<StrCmp>, doc: &mut Document)
        ensures
            final(p).spec_el() == old(p).spec_el(),
            final(doc).node_count() == old(doc).node_count(),
            final(doc).listener_count() == old(doc).listener_count(),
            !self.same(old(p)) ==> final(doc).mutation_count() == old(doc).mutation_count() + 1,
            forall|j: int|
                0 <= j < old(doc).node_count() && j != old(p).spec_el().node_id() ==> final(doc).node_unchanged(old(doc), j),
            !self.same(old(p)) ==> final(doc).text_of(old(p).spec_el().node_id())
                == (*self)@,
    {
        let new = StrCmp::from(self);
        if !(p.value == new) {
            p.value = new;
            p.el.set_text(self, doc);
            proof {
                let t = self@;
                assert(shows(p, doc, t) && fnv_of(t) == p.spec_value().spec_hash());
            }
        }
    }

    proof fn wf_preserved(p: &ValueProduct<StrCmp>, d0: &Document, d1: &Document) {
        let t = choose|t: Seq<char>|
            shows(p, d0, t) && fnv_of(t) == p.spec_value().spec_hash();
        assert(d1.node_unchanged(d0, p.spec_el().node_id()));
        assert(shows(p, d1, t) && fnv_of(t) == p.spec_value().spec_hash());
    }
}

impl<'a, 'b> Html for &'b &'a str {
    type Product = ValueProduct<StrCmp>;

    open spec fn wf(p: &ValueProduct<StrCmp>, doc: &Document) -> bool {
        exists|t: Seq<char>| shows(p, doc, t) && fnv_of(t) == p.spec_value().spec_hash()
    }

    open spec fn same(&self, p: &ValueProduct<StrCmp>) -> bool {
        p.spec_value().spec_hash() == fnv_of((**self)@)
    }

    open spec fn same_place(p0: &ValueProduct<StrCmp>, p1: &ValueProduct<StrCmp>) -> bool {
        p0.spec_el() == p1.spec_el()
    }

    fn build(self, doc: &mut Document) -> (p: ValueProduct<StrCmp>)
        ensures
            p.spec_el().node_id() == old(doc).node_count(),
            final(doc).node_count() == old(doc).node_count() + 1,
            final(doc).mutation_count() == old(doc).mutation_count() + 1,
            final(doc).listener_count() == old(doc).listener_count(),
            forall|j: int|
                0 <= j < old(doc).node_count() ==> final(doc).node_unchanged(old(doc), j),
            final(doc).text_of(p.spec_el().node_id()) == (**self)@,
    {
        (*self).build(doc)
    }

    fn update(self, p: &mut ValueProduct<StrCmp>, doc: &mut Document)
        ensures
            final(p).spec_el() == old(p).spec_el(),
            final(doc).node_count() == old(doc).node_count(),
            final(doc).listener_count() == old(doc).listener_count(),
            !self.same(old(p)) ==> final(doc).mutation_count() == old(doc).mutation_count() + 1,
            forall|j: int|
                0 <= j < old(doc).node_count() && j != old(p).spec_el().node_id() ==> final(doc).node_unchanged(old(doc), j),
            !self.same(old(p)) ==> final(doc).text_of(old(p).spec_el().node_id())
                == (**self)@,
    {
        (*self).update(p, doc)
    }

    proof fn wf_preserved(p: &ValueProduct<StrCmp>, d0: &Document, d1: &Document) {
        let t = choose|t: Seq<char>|
            shows(p, d0, t) && fnv_of(t) == p.spec_value().spec_hash();
        assert(d1.node_unchanged(d0, p.spec_el().node_id()));
        assert(shows(p, d1, t) && fnv_of(t) == p.spec_value().spec_hash());
    }
}

impl Html for bool {
    type Product = ValueProduct<bool>;

    open spec fn wf(p: &ValueProduct<bool>, doc: &Document) -> bool {
        shows(p, doc, p.spec_value().spec_repr())
    }

    open spec fn same(&self, p: &ValueProduct<bool>) -> bool {
        p.spec_value() == *self
    }

    open spec fn same_place(p0: &ValueProduct<bool>, p1: &ValueProduct<bool>) -> bool {
        p0.spec_el() == p1.spec_el()
    }

    fn build(self, doc: &mut Document) -> (p: ValueProduct<bool>)
        ensures
            p.spec_el().node_id() == old(doc).node_count(),
            final(doc).node_count() == old(doc).node_count() + 1,
            final(doc).mutation_count() == old(doc).mutation_count() + 1,
            final(doc).listener_count() == old(doc).listener_count(),
            forall|j: int|
                0 <= j < old(doc).node_count() ==> final(doc).node_unchanged(old(doc), j),
    {
        let el = Element::new_text(
            if self {
                "true"
            } else {
                "false"
            },
            doc,
        );
        ValueProduct { value: self, el }
    }

    fn update(self, p: &mut ValueProduct<bool>, doc: &mut Document)
        ensures
            final(p).spec_el() == old(p).spec_el(),
            final(doc).node_count() == old(doc).node_count(),
            final(doc).listener_count() == old(doc).listener_count(),
            !self.same(old(p)) ==> final(doc).mutation_count() == old(doc).mutation_count() + 1,
            forall|j: int|
                0 <= j < old(doc).node_count() && j != old(p).spec_el().node_id() ==> final(doc).node_unchanged(old(doc), j),
    {
        if !(p.value == self) {
            p.value = self;
            p.el.set_text(
                if self {
                    "true"
                } else {
                    "false"
                },
                doc,
            );
        }
    }

    proof fn wf_preserved(p: &ValueProduct<bool>, d0: &Document, d1: &Document) {
        assert(d1.node_unchanged(d0, p.spec_el().node_id()));
    }
}

impl Html for i8 {
    type Product = ValueProduct<i8>;

    open spec fn wf(p: &ValueProduct<i8>, doc: &Document) -> bool {
        shows(p, doc, dec_int(p.spec_value() as int))
    }

    open spec fn same(&self, p: &ValueProduct<i8>) -> bool {
        p.spec_value() == *self
    }

    open spec fn same_place(p0: &ValueProduct<i8>, p1: &ValueProduct<i8>) -> bool {
        p0.spec_el() == p1.spec_el()
    }

    fn build(self, doc: &mut Document) -> (p: ValueProduct<i8>)
        ensures
            p.spec_el().node_id() == old(doc).node_count(),
            final(doc).node_count() == old(doc).node_count() + 1,
            final(doc).mutation_count() == old(doc).mutation_count() + 1,
            final(doc).listener_count() == old(doc).listener_count(),
            forall|j: int|
                0 <= j < old(doc).node_count() ==> final(doc).node_unchanged(old(doc), j),
    {
        let s = itoa_format_i128(self as i128);
        let el = Element::new_text(s.as_str(), doc);
        ValueProduct { value: self, el }
    }

    fn update(self, p: &mut ValueProduct<i8>, doc: &mut Document)
        ensures
            final(p).spec_el() == old(p).spec_el(),
            final(doc).node_count() == old(doc).node_count(),
            final(doc).listener_count() == old(doc).listener_count(),
            !self.same(old(p)) ==> final(doc).mutation_count() == old(doc).mutation_count() + 1,
            forall|j: int|
                0 <= j < old(doc).node_count() && j != old(p).spec_el().node_id() ==> final(doc).node_unchanged(old(doc), j),
    {
        if !(p.value == self) {
            p.value = self;
            let s = itoa_format_i128(self as i128);
            p.el.set_text(s.as_str(), doc);
        }
    }

    proof fn wf_preserved(p: &ValueProduct<i8>, d0: &Document, d1: &Document) {
        assert(d1.node_unchanged(d0, p.spec_el().node_id()));
    }
}

impl Html for i16 {
    type Product = ValueProduct<i16>;

    open spec fn wf(p: &ValueProduct<i16>, doc: &Document) -> bool {
        shows(p, doc, dec_int(p.spec_value() as int))
    }

    open spec fn same(&self, p: &ValueProduct<i16>) -> bool {
        p.spec_value() == *self
    }

    open spec fn same_place(p0: &ValueProduct<i16>, p1: &ValueProduct<i16>) -> bool {
        p0.spec_el() == p1.spec_el()
    }

    fn build(self, doc: &mut Document) -> (p: ValueProduct<i16>)
        ensures
            p.spec_el().node_id() == old(doc).node_count(),
            final(doc).node_count() == old(doc).node_count() + 1,
            final(doc).mutation_count() == old(doc).mutation_count() + 1,
            final(doc).listener_count() == old(doc).listener_count(),
            forall|j: int|
                0 <= j < old(doc).node_count() ==> final(doc).node_unchanged(old(doc), j),
    {
        let s = itoa_format_i128(self as i128);
        let el = Element::new_text(s.as_str(), doc);
        ValueProduct { value: self, el }
    }

    fn update(self, p: &mut ValueProduct<i16>, doc: &mut Document)
        ensures
            final(p).spec_el() == old(p).spec_el(),
            final(doc).node_count() == old(doc).node_count(),
            final(doc).listener_count() == old(doc).listener_count(),
            !self.same(old(p)) ==> final(doc).mutation_count() == old(doc).mutation_count() + 1,
            forall|j: int|
                0 <= j < old(doc).node_count() && j != old(p).spec_el().node_id() ==> final(doc).node_unchanged(old(doc), j),
    {
        if !(p.value == self) {
            p.value = self;
            let s = itoa_format_i128(self as i128);
            p.el.set_text(s.as_str(), doc);
        }
    }

    proof fn wf_preserved(p: &ValueProduct<i16>, d0: &Document, d1: &Document) {
        assert(d1.node_unchanged(d0, p.spec_el().node_id()));
    }
}

impl Html for i32 {
    type Product = ValueProduct<i32>;

    open spec fn wf(p: &ValueProduct<i32>, doc: &Document) -> bool {
        shows(p, doc, dec_int(p.spec_value() as int))
    }

    open spec fn same(&self, p: &ValueProduct<i32>) -> bool {
        p.spec_value() == *self
    }

    open spec fn same_place(p0: &ValueProduct<i32>, p1: &ValueProduct<i32>) -> bool {
        p0.spec_el() == p1.spec_el()
    }

    fn build(self, doc: &mut Document) -> (p: ValueProduct<i32>)
        ensures
            p.spec_el().node_id() == old(doc).node_count(),
            final(doc).node_count() == old(doc).node_count() + 1,
            final(doc).mutation_count() == old(doc).mutation_count() + 1,
            final(doc).listener_count() == old(doc).listener_count(),
            forall|j: int|
                0 <= j < old(doc).node_count() ==> final(doc).node_unchanged(old(doc), j),
    {
        let s = itoa_format_i128(self as i128);
        let el = Element::new_text(s.as_str(), doc);
        ValueProduct { value: self, el }
    }

    fn update(self, p: &mut ValueProduct<i32>, doc: &mut Document)
        ensures
            final(p).spec_el() == old(p).spec_el(),
            final(doc).node_count() == old(doc).node_count(),
            final(doc).listener_count() == old(doc).listener_count(),
            !self.same(old(p)) ==> final(doc).mutation_count() == old(doc).mutation_count() + 1,
            forall|j: int|
                0 <= j < old(doc).node_count() && j != old(p).spec_el().node_id() ==> final(doc).node_unchanged(old(doc), j),
    {
        if !(p.value == self) {
            p.value = self;
            let s = itoa_format_i128(self as i128);
            p.el.set_text(s.as_str(), doc);
        }
    }

    proof fn wf_preserved(p: &ValueProduct<i32>, d0: &Document, d1: &Document) {
        assert(d1.node_unchanged(d0, p.spec_el().node_id()));
    }
}

impl Html for i64 {
    type Product = ValueProduct<i64>;

    open spec fn wf(p: &ValueProduct<i64>, doc: &Document) -> bool {
        shows(p, doc, dec_int(p.spec_value() as int))
    }

    open spec fn same(&self, p: &ValueProduct<i64>) -> bool {
        p.spec_value() == *self
    }

    open spec fn same_place(p0: &ValueProduct<i64>, p1: &ValueProduct<i64>) -> bool {
        p0.spec_el() == p1.spec_el()
    }

    fn build(self, doc: &mut Document) -> (p: ValueProduct<i64>)
        ensures
            p.spec_el().node_id() == old(doc).node_count(),
            final(doc).node_count() == old(doc).node_count() + 1,
            final(doc).mutation_count() == old(doc).mutation_count() + 1,
            final(doc).listener_count() == old(doc).listener_count(),
            forall|j: int|
                0 <= j < old(doc).node_count() ==> final(doc).node_unchanged(old(doc), j),
    {
        let s = itoa_format_i128(self as i128);
        let el = Element::new_text(s.as_str(), doc);
        ValueProduct { value: self, el }
    }

    fn update(self, p: &mut ValueProduct<i64>, doc: &mut Document)
        ensures
            final(p).spec_el() == old(p).spec_el(),
            final(doc).node_count() == old(doc).node_count(),
            final(doc).listener_count() == old(doc).listener_count(),
            !self.same(old(p)) ==> final(doc).mutation_count() == old(doc).mutation_count() + 1,
            forall|j: int|
                0 <= j < old(doc).node_count() && j != old(p).spec_el().node_id() ==> final(doc).node_unchanged(old(doc), j),
    {
        if !(p.value == self) {
            p.value = self;
            let s = itoa_format_i128(self as i128);
            p.el.set_text(s.as_str(), doc);
        }
    }

    proof fn wf_preserved(p: &ValueProduct<i64>, d0: &Document, d1: &Document) {
        assert(d1.node_unchanged(d0, p.spec_el().node_id()));
    }
}

impl Html for i128 {
    type Product = ValueProduct<i128>;

    open spec fn wf(p: &ValueProduct<i128>, doc: &Document) -> bool {
        shows(p, doc, dec_int(p.spec_value() as int))
    }

    open spec fn same(&self, p: &ValueProduct<i128>) -> bool {
        p.spec_value() == *self
    }

    open spec fn same_place(p0: &ValueProduct<i128>, p1: &ValueProduct<i128>) -> bool {
        p0.spec_el() == p1.spec_el()
    }

    fn build(self, doc: &mut Document) -> (p: ValueProduct<i128>)
        ensures
            p.spec_el().node_id() == old(doc).node_count(),
            final(doc).node_count() == old(doc).node_count() + 1,
            final(doc).mutation_count() == old(doc).mutation_count() + 1,
            final(doc).listener_count() == old(doc).listener_count(),
            forall|j: int|
                0 <= j < old(doc).node_count() ==> final(doc).node_unchanged(old(doc), j),
    {
        let s = itoa_format_i128(self);
        let el = Element::new_text(s.as_str(), doc);
        ValueProduct { value: self, el }
    }

    fn update(self, p: &mut ValueProduct<i128>, doc: &mut Document)
        ensures
            final(p).spec_el() == old(p).spec_el(),
            final(doc).node_count() == old(doc).node_count(),
            final(doc).listener_count() == old(doc).listener_count(),
            !self.same(old(p)) ==> final(doc).mutation_count() == old(doc).mutation_count() + 1,
            forall|j: int|
                0 <= j < old(doc).node_count() && j != old(p).spec_el().node_id() ==> final(doc).node_unchanged(old(doc), j),
    {
        if !(p.value == self) {
            p.value = self;
            let s = itoa_format_i128(self);
            p.el.set_text(s.as_str(), doc);
        }
    }

    proof fn wf_preserved(p: &ValueProduct<i128>, d0: &Document, d1: &Document) {
        assert(d1.node_unchanged(d0, p.spec_el().node_id()));
    }
}

impl Html for isize {
    type Product = ValueProduct<isize>;

    open spec fn wf(p: &ValueProduct<isize>, doc: &Document) -> bool {
        shows(p, doc, dec_int(p.spec_value() as int))
    }

    open spec fn same(&self, p: &ValueProduct<isize>) -> bool {
        p.spec_value() == *self
    }

    open spec fn same_place(p0: &ValueProduct<isize>, p1: &ValueProduct<isize>) -> bool {
        p0.spec_el() == p1.spec_el()
    }

    fn build(self, doc: &mut Document) -> (p: ValueProduct<isize>)
        ensures
            p.spec_el().node_id() == old(doc).node_count(),
            final(doc).node_count() == old(doc).node_count() + 1,
            final(doc).mutation_count() == old(doc).mutation_count() + 1,
            final(doc).listener_count() == old(doc).listener_count(),
            forall|j: int|
                0 <= j < old(doc).node_count() ==> final(doc).node_unchanged(old(doc), j),
    {
        let s = itoa_format_i128(self as i128);
        let el = Element::new_text(s.as_str(), doc);
        ValueProduct { value: self, el }
    }

    fn update(self, p: &mut ValueProduct<isize>, doc: &mut Document)
        ensures
            final(p).spec_el() == old(p).spec_el(),
            final(doc).node_count() == old(doc).node_count(),
            final(doc).listener_count() == old(doc).listener_count(),
            !self.same(old(p)) ==> final(doc).mutation_count() == old(doc).mutation_count() + 1,
            forall|j: int|
                0 <= j < old(doc).node_count() && j != old(p).spec_el().node_id() ==> final(doc).node_unchanged(old(doc), j),
    {
        if !(p.value == self) {
            p.value = self;
            let s = itoa_format_i128(self as i128);
            p.el.set_text(s.as_str(), doc);
        }
    }

    proof fn wf_preserved(p: &ValueProduct<isize>, d0: &Document, d1: &Document) {
        assert(d1.node_unchanged(d0, p.spec_el().node_id()));
    }
}

impl Html for u8 {
    type Product = ValueProduct<u8>;

    open spec fn wf(p: &ValueProduct<u8>, doc: &Document) -> bool {
        shows(p, doc, dec_nat(p.spec_value() as nat))
    }

    open spec fn same(&self, p: &ValueProduct<u8>) -> bool {
        p.spec_value() == *self
    }

    open spec fn same_place(p0: &ValueProduct<u8>, p1: &ValueProduct<u8>) -> bool {
        p0.spec_el() == p1.spec_el()
    }

    fn build(self, doc: &mut Document) -> (p: ValueProduct<u8>)
        ensures
            p.spec_el().node_id() == old(doc).node_count(),
            final(doc).node_count() == old(doc).node_count() + 1,
            final(doc).mutation_count() == old(doc).mutation_count() + 1,
            final(doc).listener_count() == old(doc).listener_count(),
            forall|j: int|
                0 <= j < old(doc).node_count() ==> final(doc).node_unchanged(old(doc), j),
    {
        let s = itoa_format_u128(self as u128);
        let el = Element::new_text(s.as_str(), doc);
        ValueProduct { value: self, el }
    }

    fn update(self, p: &mut ValueProduct<u8>, doc: &mut Document)
        ensures
            final(p).spec_el() == old(p).spec_el(),
            final(doc).node_count() == old(doc).node_count(),
            final(doc).listener_count() == old(doc).listener_count(),
            !self.same(old(p)) ==> final(doc).mutation_count() == old(doc).mutation_count() + 1,
            forall|j: int|
                0 <= j < old(doc).node_count() && j != old(p).spec_el().node_id() ==> final(doc).node_unchanged(old(doc), j),
    {
        if !(p.value == self) {
            p.value = self;
            let s = itoa_format_u128(self as u128);
            p.el.set_text(s.as_str(), doc);
        }
    }

    proof fn wf_preserved(p: &ValueProduct<u8>, d0: &Document, d1: &Document) {
        assert(d1.node_unchanged(d0, p.spec_el().node_id()));
    }
}

impl Html for u16 {
    type Product = ValueProduct<u16>;

    open spec fn wf(p: &ValueProduct<u16>, doc: &Document) -> bool {
        shows(p, doc, dec_nat(p.spec_value() as nat))
    }

    open spec fn same(&self, p: &ValueProduct<u16>) -> bool {
        p.spec_value() == *self
    }

    open spec fn same_place(p0: &ValueProduct<u16>, p1: &ValueProduct<u16>) -> bool {
        p0.spec_el() == p1.spec_el()
    }

    fn build(self, doc: &mut Document) -> (p: ValueProduct<u16>)
        ensures
            p.spec_el().node_id() == old(doc).node_count(),
            final(doc).node_count() == old(doc).node_count() + 1,
            final(doc).mutation_count() == old(doc).mutation_count() + 1,
            final(doc).listener_count() == old(doc).listener_count(),
            forall|j: int|
                0 <= j < old(doc).node_count() ==> final(doc).node_unchanged(old(doc), j),
    {
        let s = itoa_format_u128(self as u128);
        let el = Element::new_text(s.as_str(), doc);
        ValueProduct { value: self, el }
    }

    fn update(self, p: &mut ValueProduct<u16>, doc: &mut Document)
        ensures
            final(p).spec_el() == old(p).spec_el(),
            final(doc).node_count() == old(doc).node_count(),
            final(doc).listener_count() == old(doc).listener_count(),
            !self.same(old(p)) ==> final(doc).mutation_count() == old(doc).mutation_count() + 1,
            forall|j: int|
                0 <= j < old(doc).node_count() && j != old(p).spec_el().node_id() ==> final(doc).node_unchanged(old(doc), j),
    {
        if !(p.value == self) {
            p.value = self;
            let s = itoa_format_u128(self as u128);
            p.el.set_text(s.as_str(), doc);
        }
    }

    proof fn wf_preserved(p: &ValueProduct<u16>, d0: &Document, d1: &Document) {
        assert(d1.node_unchanged(d0, p.spec_el().node_id()));
    }
}

impl Html for u32 {
    type Product = ValueProduct<u32>;

    open spec fn wf(p: &ValueProduct<u32>, doc: &Document) -> bool {
        shows(p, doc, dec_nat(p.spec_value() as nat))
    }

    open spec fn same(&self, p: &ValueProduct<u32>) -> bool {
        p.spec_value() == *self
    }

    open spec fn same_place(p0: &ValueProduct<u32>, p1: &ValueProduct<u32>) -> bool {
        p0.spec_el() == p1.spec_el()
    }

    fn build(self, doc: &mut Document) -> (p: ValueProduct<u32>)
        ensures
            p.spec_el().node_id() == old(doc).node_count(),
            final(doc).node_count() == old(doc).node_count() + 1,
            final(doc).mutation_count() == old(doc).mutation_count() + 1,
            final(doc).listener_count() == old(doc).listener_count(),
            forall|j: int|
                0 <= j < old(doc).node_count() ==> final(doc).node_unchanged(old(doc), j),
    {
        let s = itoa_format_u128(self as u128);
        let el = Element::new_text(s.as_str(), doc);
        ValueProduct { value: self, el }
    }

    fn update(self, p: &mut ValueProduct<u32>, doc: &mut Document)
        ensures
            final(p).spec_el() == old(p).spec_el(),
            final(doc).node_count() == old(doc).node_count(),
            final(doc).listener_count() == old(doc).listener_count(),
            !self.same(old(p)) ==> final(doc).mutation_count() == old(doc).mutation_count() + 1,
            forall|j: int|
                0 <= j < old(doc).node_count() && j != old(p).spec_el().node_id() ==> final(doc).node_unchanged(old(doc), j),
    {
        if !(p.value == self) {
            p.value = self;
            let s = itoa_format_u128(self as u128);
            p.el.set_text(s.as_str(), doc);
        }
    }

    proof fn wf_preserved(p: &ValueProduct<u32>, d0: &Document, d1: &Document) {
        assert(d1.node_unchanged(d0, p.spec_el().node_id()));
    }
}

impl Html for u64 {
    type Product = ValueProduct<u64>;

    open spec fn wf(p: &ValueProduct<u64>, doc: &Document) -> bool {
        shows(p, doc, dec_nat(p.spec_value() as nat))
    }

    open spec fn same(&self, p: &ValueProduct<u64>) -> bool {
        p.spec_value() == *self
    }

    open spec fn same_place(p0: &ValueProduct<u64>, p1: &ValueProduct<u64>) -> bool {
        p0.spec_el() == p1.spec_el()
    }

    fn build(self, doc: &mut Document) -> (p: ValueProduct<u64>)
        ensures
            p.spec_el().node_id() == old(doc).node_count(),
            final(doc).node_count() == old(doc).node_count() + 1,
            final(doc).mutation_count() == old(doc).mutation_count() + 1,
            final(doc).listener_count() == old(doc).listener_count(),
            forall|j: int|
                0 <= j < old(doc).node_count() ==> final(doc).node_unchanged(old(doc), j),
    {
        let s = itoa_format_u128(self as u128);
        let el = Element::new_text(s.as_str(), doc);
        ValueProduct { value: self, el }
    }

    fn update(self, p: &mut ValueProduct<u64>, doc: &mut Document)
        ensures
            final(p).spec_el() == old(p).spec_el(),
            final(doc).node_count() == old(doc).node_count(),
            final(doc).listener_count() == old(doc).listener_count(),
            !self.same(old(p)) ==> final(doc).mutation_count() == old(doc).mutation_count() + 1,
            forall|j: int|
                0 <= j < old(doc).node_count() && j != old(p).spec_el().node_id() ==> final(doc).node_unchanged(old(doc), j),
    {
        if !(p.value == self) {
            p.value = self;
            let s = itoa_format_u128(self as u128);
            p.el.set_text(s.as_str(), doc);
        }
    }

    proof fn wf_preserved(p: &ValueProduct<u64>, d0: &Document, d1: &Document) {
        assert(d1.node_unchanged(d0, p.spec_el().node_id()));
    }
}

impl Html for u128 {
    type Product = ValueProduct<u128>;

    open spec fn wf(p: &ValueProduct<u128>, doc: &Document) -> bool {
        shows(p, doc, dec_nat(p.spec_value() as nat))
    }

    open spec fn same(&self, p: &ValueProduct<u128>) -> bool {
        p.spec_value() == *self
    }

    open spec fn same_place(p0: &ValueProduct<u128>, p1: &ValueProduct<u128>) -> bool {
        p0.spec_el() == p1.spec_el()
    }

    fn build(self, doc: &mut Document) -> (p: ValueProduct<u128>)
        ensures
            p.spec_el().node_id() == old(doc).node_count(),
            final(doc).node_count() == old(doc).node_count() + 1,
            final(doc).mutation_count() == old(doc).mutation_count() + 1,
            final(doc).listener_count() == old(doc).listener_count(),
            forall|j: int|
                0 <= j < old(doc).node_count() ==> final(doc).node_unchanged(old(doc), j),
    {
        let s = itoa_format_u128(self);
        let el = Element::new_text(s.as_str(), doc);
        ValueProduct { value: self, el }
    }

    fn update(self, p: &mut ValueProduct<u128>, doc: &mut Document)
        ensures
            final(p).spec_el() == old(p).spec_el(),
            final(doc).node_count() == old(doc).node_count(),
            final(doc).listener_count() == old(doc).listener_count(),
            !self.same(old(p)) ==> final(doc).mutation_count() == old(doc).mutation_count() + 1,
            forall|j: int|
                0 <= j < old(doc).node_count() && j != old(p).spec_el().node_id() ==> final(doc).node_unchanged(old(doc), j),
    {
        if !(p.value == self) {
            p.value = self;
            let s = itoa_format_u128(self);
            p.el.set_text(s.as_str(), doc);
        }
    }

    proof fn wf_preserved(p: &ValueProduct<u128>, d0: &Document, d1: &Document) {
        assert(d1.node_unchanged(d0, p.spec_el().node_id()));
    }
}

impl Html for usize {
    type Product = ValueProduct<usize>;

    open spec fn wf(p: &ValueProduct<usize>, doc: &Document) -> bool {
        shows(p, doc, dec_nat(p.spec_value() as nat))
    }

    open spec fn same(&self, p: &ValueProduct<usize>) -> bool {
        p.spec_value() == *self
    }

    open spec fn same_place(p0: &ValueProduct<usize>, p1: &ValueProduct<usize>) -> bool {
        p0.spec_el() == p1.spec_el()
    }

    fn build(self, doc: &mut Document) -> (p: ValueProduct<usize>)
        ensures
            p.spec_el().node_id() == old(doc).node_count(),
            final(doc).node_count() == old(doc).node_count() + 1,
            final(doc).mutation_count() == old(doc).mutation_count() + 1,
            final(doc).listener_count() == old(doc).listener_count(),
            forall|j: int|
                0 <= j < old(doc).node_count() ==> final(doc).node_unchanged(old(doc), j),
    {
        let s = itoa_format_u128(self as u128);
        let el = Element::new_text(s.as_str(), doc);
        ValueProduct { value: self, el }
    }

    fn update(self, p: &mut ValueProduct<usize>, doc: &mut Document)
        ensures
            final(p).spec_el() == old(p).spec_el(),
            final(doc).node_count() == old(doc).node_count(),
            final(doc).listener_count() == old(doc).listener_count(),
            !self.same(old(p)) ==> final(doc).mutation_count() == old(doc).mutation_count() + 1,
            forall|j: int|
                0 <= j < old(doc).node_count() && j != old(p).spec_el().node_id() ==> final(doc).node_unchanged(old(doc), j),
    {
        if !(p.value == self) {
            p.value = self;
            let s = itoa_format_u128(self as u128);
            p.el.set_text(s.as_str(), doc);
        }
    }

    proof fn wf_preserved(p: &ValueProduct<usize>, d0: &Document, d1: &Document) {
        assert(d1.node_unchanged(d0, p.spec_el().node_id()));
    }
}

impl Stringify for i8 {
    open spec fn spec_repr(&self) -> Seq<char> {
        dec_int(*self as int)
    }

    fn stringify<F: FnOnce(&str) -> R, R>(&self, f: F) -> (r: R) {
        let s = itoa_format_i128(*self as i128);
        let t = s.as_str();
        proof {
            assert(call_requires(f, (t,)));
        }
        f(t)
    }
}

impl Stringify for i16 {
    open spec fn spec_repr(&self) -> Seq<char> {
        dec_int(*self as int)
    }

    fn stringify<F: FnOnce(&str) -> R, R>(&self, f: F) -> (r: R) {
        let s = itoa_format_i128(*self as i128);
        let t = s.as_str();
        proof {
            assert(call_requires(f, (t,)));
        }
        f(t)
    }
}

impl Stringify for i32 {
    open spec fn spec_repr(&self) -> Seq<char> {
        dec_int(*self as int)
    }

    fn stringify<F: FnOnce(&str) -> R, R>(&self, f: F) -> (r: R) {
        let s = itoa_format_i128(*self as i128);
        let t = s.as_str();
        proof {
            assert(call_requires(f, (t,)));
        }
        f(t)
    }
}

impl Stringify for i64 {
    open spec fn spec_repr(&self) -> Seq<char> {
        dec_int(*self as int)
    }

    fn stringify<F: FnOnce(&str) -> R, R>(&self, f: F) -> (r: R) {
        let s = itoa_format_i128(*self as i128);
        let t = s.as_str();
        proof {
            assert(call_requires(f, (t,)));
        }
        f(t)
    }
}

impl Stringify for i128 {
    open spec fn spec_repr(&self) -> Seq<char> {
        dec_int(*self as int)
    }

    fn stringify<F: FnOnce(&str) -> R, R>(&self, f: F) -> (r: R) {
        let s = itoa_format_i128(*self);
        let t = s.as_str();
        proof {
            assert(call_requires(f, (t,)));
        }
        f(t)
    }
}

impl Stringify for isize {
    open spec fn spec_repr(&self) -> Seq<char> {
        dec_int(*self as int)
    }

    fn stringify<F: FnOnce(&str) -> R, R>(&self, f: F) -> (r: R) {
        let s = itoa_format_i128(*self as i128);
        let t = s.as_str();
        proof {
            assert(call_requires(f, (t,)));
        }
        f(t)
    }
}

impl Stringify for u8 {
    open spec fn spec_repr(&self) -> Seq<char> {
        dec_nat(*self as nat)
    }

    fn stringify<F: FnOnce(&str) -> R, R>(&self, f: F) -> (r: R) {
        let s = itoa_format_u128(*self as u128);
        let t = s.as_str();
        proof {
            assert(call_requires(f, (t,)));
        }
        f(t)
    }
}

impl Stringify for u16 {
    open spec fn spec_repr(&self) -> Seq<char> {
        dec_nat(*self as nat)
    }

    fn stringify<F: FnOnce(&str) -> R, R>(&self, f: F) -> (r: R) {
        let s = itoa_format_u128(*self as u128);
        let t = s.as_str();
        proof {
            assert(call_requires(f, (t,)));
        }
        f(t)
    }
}

impl Stringify for u32 {
    open spec fn spec_repr(&self) -> Seq<char> {
        dec_nat(*self as nat)
    }

    fn stringify<F: FnOnce(&str) -> R, R>(&self, f: F) -> (r: R) {
        let s = itoa_format_u128(*self as u128);
        let t = s.as_str();
        proof {
            assert(call_requires(f, (t,)));
        }
        f(t)
    }
}

impl Stringify for u64 {
    open spec fn spec_repr(&self) -> Seq<char> {
        dec_nat(*self as nat)
    }

    fn stringify<F: FnOnce(&str) -> R, R>(&self, f: F) -> (r: R) {
        let s = itoa_format_u128(*self as u128);
        let t = s.as_str();
        proof {
            assert(call_requires(f, (t,)));
        }
        f(t)
    }
}

impl Stringify for u128 {
    open spec fn spec_repr(&self) -> Seq<char> {
        dec_nat(*self as nat)
    }

    fn stringify<F: FnOnce(&str) -> R, R>(&self, f: F) -> (r: R) {
        let s = itoa_format_u128(*self);
        let t = s.as_str();
        proof {
            assert(call_requires(f, (t,)));
        }
        f(t)
    }
}

impl Stringify for usize {
    open spec fn spec_repr(&self) -> Seq<char> {
        dec_nat(*self as nat)
    }

    fn stringify<F: FnOnce(&str) -> R, R>(&self, f: F) -> (r: R) {
        let s = itoa_format_u128(*self as u128);
        let t = s.as_str();
        proof {
            assert(call_requires(f, (t,)));
        }
        f(t)
    }
}

} // verus!
