//! The primitive-node layer and the mounted-node abstraction.
//!
//! A [`Document`] is the backing store of primitive nodes: the runtime treats
//! the node API as an opaque capability set, and any backing store exposing
//! equivalent primitives (create, insert-before, replace, remove, set-text)
//! is a valid collaborator. This one keeps every node in an arena and models
//! the mounted tree through per-fragment child lists, so that every operation
//! carries an exact contract.
//!
//! An [`Element`] owns one mounted node or one anchored fragment range; a
//! [`Fragment`] is a container bounded by a persistent tail anchor node, so a
//! run of sibling nodes can be treated as one unit even when emptied.

use vstd::prelude::*;

verus! {

/// What a primitive node is.
#[derive(Clone, Copy, PartialEq, Eq, Structural, Debug)]
pub enum NodeKind {
    /// A text node with mutable character content.
    Text,
    /// An empty placeholder node.
    Empty,
    /// A fragment container: holds an anchored run of sibling nodes.
    Fragment,
    /// A fragment's persistent tail anchor, the stable append position.
    Anchor,
}

/// Position of `target` in a child list known to contain it.
fn find_child(children: &Vec<usize>, target: usize) -> (k: usize)
    requires
        children@.contains(target),
    ensures
        k < children@.len(),
        children@[k as int] == target,
{
    let mut k: usize = 0;
    while k < children.len()
        invariant
            k <= children@.len(),
            children@.contains(target),
            forall|j: int| 0 <= j < k ==> children@[j] != target,
        decreases children@.len() - k,
    {
        if children[k] == target {
            return k;
        }
        k = k + 1;
    }
    proof {
        let x = choose|x: int| 0 <= x < children@.len() && children@[x] == target;
        assert(false);
    }
    vstd::pervasive::unreached()
}

/// One primitive node. Nodes are never deallocated from the arena; removal
/// only detaches a node from its parent's child list.
struct NodeData {
    kind: NodeKind,
    /// Character content; meaningful for `Text` nodes.
    text: String,
    /// Child nodes, in sibling order; non-empty only for `Fragment` nodes.
    children: Vec<usize>,
    /// The fragment this node is currently mounted in, if any.
    parent: Option<usize>,
}

/// The backing store of primitive nodes.
pub struct Document {
    nodes: Vec<NodeData>,
    /// How many native listeners have been registered so far.
    next_listener: usize,
    /// How many mutating primitive calls have been made on this document.
    muts: Ghost<nat>,
}

impl Document {
    /// Number of nodes ever created in this document.
    pub closed spec fn node_count(&self) -> nat {
        self.nodes@.len()
    }

    /// Whether `id` names a node of this document.
    pub open spec fn valid(&self, id: int) -> bool {
        0 <= id < self.node_count()
    }

    /// The kind of node `id`.
    pub closed spec fn kind_of(&self, id: int) -> NodeKind {
        self.nodes@[id].kind
    }

    /// The character content of node `id`.
    pub closed spec fn text_of(&self, id: int) -> Seq<char> {
        self.nodes@[id].text@
    }

    /// The children of node `id`, in sibling order.
    pub closed spec fn children_of(&self, id: int) -> Seq<usize> {
        self.nodes@[id].children@
    }

    /// The fragment node `id` is currently mounted in, if any.
    pub closed spec fn parent_of(&self, id: int) -> Option<usize> {
        self.nodes@[id].parent
    }

    /// How many mutating primitive calls have been made on this document.
    pub closed spec fn mutation_count(&self) -> nat {
        self.muts@
    }

    /// How many native listeners have been registered in this document.
    pub closed spec fn listener_count(&self) -> nat {
        self.next_listener as nat
    }

    /// Node `id` is the same, field for field, in `self` as in `prev`.
    pub open spec fn node_unchanged(&self, prev: &Document, id: int) -> bool {
        &&& self.kind_of(id) == prev.kind_of(id)
        &&& self.text_of(id) == prev.text_of(id)
        &&& self.children_of(id) == prev.children_of(id)
        &&& self.parent_of(id) == prev.parent_of(id)
    }

    /// Internal consistency of one node: children only on fragments, child
    /// lists free of duplicates, and parent and child links agreeing.
    spec fn node_wf(&self, i: int) -> bool {
        let n = self.nodes@[i];
        &&& (n.kind != NodeKind::Fragment ==> n.children@.len() == 0)
        &&& (forall|k: int|
            0 <= k < n.children@.len() ==> (#[trigger] n.children@[k]) < self.nodes@.len()
                && self.nodes@[n.children@[k] as int].parent == Some(i as usize))
        &&& (forall|k1: int, k2: int|
            0 <= k1 < n.children@.len() && 0 <= k2 < n.children@.len()
                && n.children@[k1] == n.children@[k2] ==> k1 == k2)
        &&& (match n.parent {
            Some(p) => p < self.nodes@.len() && p != i
                && self.nodes@[p as int].kind == NodeKind::Fragment
                && self.nodes@[p as int].children@.contains(i as usize),
            None => true,
        })
    }

    /// The document's mounting structure is consistent.
    pub closed spec fn wf(&self) -> bool {
        forall|i: int| 0 <= i < self.nodes@.len() ==> #[trigger] self.node_wf(i)
    }

    /// An empty document.
    pub fn new() -> (doc: Document)
        ensures
            doc.wf(),
            doc.node_count() == 0,
            doc.mutation_count() == 0,
            doc.listener_count() == 0,
    {
        Document { nodes: Vec::new(), next_listener: 0, muts: Ghost(0) }
    }

    /// Create a fresh detached node of the given kind and content.
    fn new_node(&mut self, kind: NodeKind, text: String) -> (id: usize)
        requires
            old(self).wf(),
        ensures
            final(self).wf(),
            id as int == old(self).node_count(),
            final(self).node_count() == old(self).node_count() + 1,
            final(self).kind_of(id as int) == kind,
            final(self).text_of(id as int) == text@,
            final(self).children_of(id as int) == Seq::<usize>::empty(),
            final(self).parent_of(id as int) is None,
            final(self).mutation_count() == old(self).mutation_count() + 1,
            final(self).listener_count() == old(self).listener_count(),
            forall|j: int| 0 <= j < old(self).node_count() ==> final(self).node_unchanged(old(self), j),
    {
        let id = self.nodes.len();
        self.nodes.push(NodeData { kind, text, children: Vec::new(), parent: None });
        self.muts = Ghost(self.muts@ + 1);
        proof {
            assert forall|i: int| 0 <= i < self.nodes@.len() implies #[trigger] self.node_wf(i) by {
                if i < old(self).nodes@.len() {
                    assert(old(self).node_wf(i));
                }
            }
        }
        id
    }

    /// Create a text node holding `text`.
    pub fn create_text_node(&mut self, text: &str) -> (id: usize)
        requires
            old(self).wf(),
        ensures
            final(self).wf(),
            id as int == old(self).node_count(),
            final(self).node_count() == old(self).node_count() + 1,
            final(self).kind_of(id as int) == NodeKind::Text,
            final(self).text_of(id as int) == text@,
            final(self).children_of(id as int) == Seq::<usize>::empty(),
            final(self).parent_of(id as int) is None,
            final(self).mutation_count() == old(self).mutation_count() + 1,
            final(self).listener_count() == old(self).listener_count(),
            forall|j: int| 0 <= j < old(self).node_count() ==> final(self).node_unchanged(old(self), j),
    {
        self.new_node(NodeKind::Text, text.to_owned())
    }

    /// Create an empty placeholder node.
    pub fn create_empty_node(&mut self) -> (id: usize)
        requires
            old(self).wf(),
        ensures
            final(self).wf(),
            id as int == old(self).node_count(),
            final(self).node_count() == old(self).node_count() + 1,
            final(self).kind_of(id as int) == NodeKind::Empty,
            final(self).children_of(id as int) == Seq::<usize>::empty(),
            final(self).parent_of(id as int) is None,
            final(self).mutation_count() == old(self).mutation_count() + 1,
            final(self).listener_count() == old(self).listener_count(),
            forall|j: int| 0 <= j < old(self).node_count() ==> final(self).node_unchanged(old(self), j),
    {
        self.new_node(NodeKind::Empty, String::new())
    }

    /// Create a bare fragment container node with no children yet.
    pub fn create_fragment_node(&mut self) -> (id: usize)
        requires
            old(self).wf(),
        ensures
            final(self).wf(),
            id as int == old(self).node_count(),
            final(self).node_count() == old(self).node_count() + 1,
            final(self).kind_of(id as int) == NodeKind::Fragment,
            final(self).children_of(id as int) == Seq::<usize>::empty(),
            final(self).parent_of(id as int) is None,
            final(self).mutation_count() == old(self).mutation_count() + 1,
            final(self).listener_count() == old(self).listener_count(),
            forall|j: int| 0 <= j < old(self).node_count() ==> final(self).node_unchanged(old(self), j),
    {
        self.new_node(NodeKind::Fragment, String::new())
    }

    /// Register a native listener and hand out its handle. Handles only ever
    /// grow; a registered listener is never re-registered.
    pub fn register_listener(&mut self) -> (id: usize)
        requires
            old(self).wf(),
        ensures
            final(self).wf(),
            id as int == old(self).listener_count(),
            old(self).listener_count() < usize::MAX ==> final(self).listener_count() == old(
                self,
            ).listener_count() + 1,
            old(self).listener_count() == usize::MAX ==> final(self).listener_count() == old(
                self,
            ).listener_count(),
            final(self).node_count() == old(self).node_count(),
            final(self).mutation_count() == old(self).mutation_count() + 1,
            forall|j: int| 0 <= j < old(self).node_count() ==> final(self).node_unchanged(old(self), j),
    {
        let id = self.next_listener;
        if self.next_listener < usize::MAX {
            self.next_listener = self.next_listener + 1;
        }
        self.muts = Ghost(self.muts@ + 1);
        proof {
            assert forall|i: int| 0 <= i < self.nodes@.len() implies #[trigger] self.node_wf(i) by {
                assert(old(self).node_wf(i));
            }
        }
        id
    }

    /// Insert detached node `child` just before `anchor` in the fragment
    /// that `anchor` is mounted in. The anchor keeps its place after the new
    /// child, so inserting before a fragment's tail anchor appends.
    pub fn insert_before(&mut self, anchor: usize, child: usize)
        requires
            old(self).wf(),
            old(self).valid(anchor as int),
            old(self).valid(child as int),
            old(self).parent_of(anchor as int) is Some,
            old(self).parent_of(anchor as int) != Some(child),
            old(self).parent_of(child as int) is None,
        ensures
            final(self).wf(),
            final(self).node_count() == old(self).node_count(),
            final(self).mutation_count() == old(self).mutation_count() + 1,
            final(self).listener_count() == old(self).listener_count(),
            ({
                let f = old(self).parent_of(anchor as int).unwrap() as int;
                &&& final(self).parent_of(child as int) == Some(f as usize)
                &&& exists|k: int|
                    0 <= k < old(self).children_of(f).len() && old(self).children_of(f)[k]
                        == anchor && final(self).children_of(f) == old(self).children_of(f).insert(k, child)
                &&& final(self).kind_of(f) == old(self).kind_of(f)
                &&& final(self).text_of(f) == old(self).text_of(f)
                &&& final(self).parent_of(f) == old(self).parent_of(f)
                &&& final(self).kind_of(child as int) == old(self).kind_of(child as int)
                &&& final(self).text_of(child as int) == old(self).text_of(child as int)
                &&& final(self).children_of(child as int) == old(self).children_of(child as int)
                &&& forall|j: int|
                    0 <= j < old(self).node_count() && j != f && j != child
                        ==> final(self).node_unchanged(old(self), j)
            }),
    {
        proof {
            assert(old(self).node_wf(anchor as int));
        }
        let f = match self.nodes[anchor].parent {
            Some(f) => f,
            None => vstd::pervasive::unreached(),
        };
        let k = find_child(&self.nodes[f].children, anchor);
        let ghost pre = *self;
        let node_f = &mut self.nodes[f];
        node_f.children.insert(k, child);
        let node_c = &mut self.nodes[child];
        node_c.parent = Some(f);
        self.muts = Ghost(self.muts@ + 1);
        proof {
            let fi = f as int;
            let ci = child as int;
            let olds = pre.nodes@[fi].children@;
            let news = self.nodes@[fi].children@;
            olds.insert_ensures(k as int, child);
            // The detached child was in nobody's list, its own old list included.
            assert forall|x: int| 0 <= x < olds.len() implies olds[x] != child by {
                if olds[x] == child {
                    assert(pre.node_wf(fi));
                    assert(pre.nodes@[ci].parent == Some(f));
                }
            }
            assert forall|i: int| 0 <= i < self.nodes@.len() implies #[trigger] self.node_wf(i) by {
                assert(pre.node_wf(i));
                assert(pre.node_wf(fi));
                let n = self.nodes@[i];
                let m = pre.nodes@[i];
                if i == fi {
                    assert forall|x1: int, x2: int|
                        0 <= x1 < news.len() && 0 <= x2 < news.len() && news[x1] == news[x2]
                            && x1 != x2 implies false by {
                        if x1 == k || x2 == k {
                            let xo = if x1 == k { x2 } else { x1 };
                            let y = if xo < k { xo } else { xo - 1 };
                            assert(news[xo] == olds[y]);
                        } else {
                            let y1 = if x1 < k { x1 } else { x1 - 1 };
                            let y2 = if x2 < k { x2 } else { x2 - 1 };
                            assert(news[x1] == olds[y1] && news[x2] == olds[y2] && y1 != y2);
                        }
                    }
                }
                if i == ci {
                    assert(news[k as int] == child);
                    assert(news.contains(child));
                }
                match n.parent {
                    Some(p) => {
                        if p == f && i != ci {
                            let x = choose|x: int| 0 <= x < olds.len() && olds[x] == i as usize;
                            if x < k {
                                assert(news[x] == i as usize);
                            } else {
                                assert(news[x + 1] == i as usize);
                            }
                            assert(news.contains(i as usize));
                        }
                    },
                    None => {},
                }
            }
            assert((k as int) < pre.children_of(fi).len() && pre.children_of(fi)[k as int]
                == anchor && self.children_of(fi) == pre.children_of(fi).insert(k as int, child));
        }
    }

    /// Detach node `id` from the fragment it is mounted in. On a node that is
    /// not mounted anywhere the call leaves the tree as it was.
    pub fn remove(&mut self, id: usize)
        requires
            old(self).wf(),
            old(self).valid(id as int),
        ensures
            final(self).wf(),
            final(self).node_count() == old(self).node_count(),
            final(self).mutation_count() == old(self).mutation_count() + 1,
            final(self).listener_count() == old(self).listener_count(),
            final(self).parent_of(id as int) is None,
            final(self).kind_of(id as int) == old(self).kind_of(id as int),
            final(self).text_of(id as int) == old(self).text_of(id as int),
            final(self).children_of(id as int) == old(self).children_of(id as int),
            match old(self).parent_of(id as int) {
                None => forall|j: int|
                    0 <= j < old(self).node_count() ==> final(self).node_unchanged(old(self), j),
                Some(fu) => ({
                    let f = fu as int;
                    &&& exists|k: int|
                        0 <= k < old(self).children_of(f).len() && old(self).children_of(f)[k]
                            == id && final(self).children_of(f) == old(self).children_of(f).remove(
                            k,
                        )
                    &&& final(self).kind_of(f) == old(self).kind_of(f)
                    &&& final(self).text_of(f) == old(self).text_of(f)
                    &&& final(self).parent_of(f) == old(self).parent_of(f)
                    &&& forall|j: int|
                        0 <= j < old(self).node_count() && j != f && j != id
                            ==> final(self).node_unchanged(old(self), j)
                }),
            },
    {
        proof {
            assert(old(self).node_wf(id as int));
        }
        let parent = self.nodes[id].parent;
        match parent {
            None => {
                self.muts = Ghost(self.muts@ + 1);
                proof {
                    assert forall|i: int| 0 <= i < self.nodes@.len() implies #[trigger] self.node_wf(
                        i,
                    ) by {
                        assert(old(self).node_wf(i));
                    }
                }
            },
            Some(f) => {
                let k = find_child(&self.nodes[f].children, id);
                let ghost pre = *self;
                let node_f = &mut self.nodes[f];
                node_f.children.remove(k);
                let node_c = &mut self.nodes[id];
                node_c.parent = None;
                self.muts = Ghost(self.muts@ + 1);
                proof {
                    let fi = f as int;
                    let ci = id as int;
                    let olds = pre.nodes@[fi].children@;
                    let news = self.nodes@[fi].children@;
                    olds.remove_ensures(k as int);
                    assert(pre.node_wf(fi));
                    assert(vstd::std_specs::vec::spec_vec_len(&pre.nodes) == pre.nodes@.len());
                    assert forall|i: int| 0 <= i < self.nodes@.len() implies #[trigger] self.node_wf(
                        i,
                    ) by {
                        assert(pre.node_wf(i));
                        let n = self.nodes@[i];
                        if i == fi {
                            assert forall|x1: int, x2: int|
                                0 <= x1 < news.len() && 0 <= x2 < news.len() && news[x1]
                                    == news[x2] && x1 != x2 implies false by {
                                let y1 = if x1 < k { x1 } else { x1 + 1 };
                                let y2 = if x2 < k { x2 } else { x2 + 1 };
                                assert(news[x1] == olds[y1] && news[x2] == olds[y2] && y1 != y2);
                            }
                        }
                        match n.parent {
                            Some(p) => {
                                if p == f {
                                    assert(i != ci);
                                    let x = choose|x: int|
                                        0 <= x < olds.len() && olds[x] == i as usize;
                                    assert(x != k);
                                    if x < k {
                                        assert(news[x] == i as usize);
                                    } else {
                                        assert(news[x - 1] == i as usize);
                                    }
                                    assert(news.contains(i as usize));
                                }
                            },
                            None => {},
                        }
                    }
                    assert((k as int) < pre.children_of(fi).len() && pre.children_of(fi)[k as int]
                        == id && self.children_of(fi) == pre.children_of(fi).remove(k as int));
                }
            },
        }
    }

    /// Swap the mounted node `id` for the detached node `new_id`, which takes
    /// over the exact position of `id` in its fragment.
    pub fn replace(&mut self, id: usize, new_id: usize)
        requires
            old(self).wf(),
            old(self).valid(id as int),
            old(self).valid(new_id as int),
            old(self).parent_of(id as int) is Some,
            old(self).parent_of(id as int) != Some(new_id),
            old(self).parent_of(new_id as int) is None,
            new_id != id,
        ensures
            final(self).wf(),
            final(self).node_count() == old(self).node_count(),
            final(self).mutation_count() == old(self).mutation_count() + 1,
            final(self).listener_count() == old(self).listener_count(),
            final(self).parent_of(id as int) is None,
            ({
                let f = old(self).parent_of(id as int).unwrap() as int;
                &&& final(self).parent_of(new_id as int) == old(self).parent_of(id as int)
                &&& exists|k: int|
                    0 <= k < old(self).children_of(f).len() && old(self).children_of(f)[k] == id
                        && final(self).children_of(f) == old(self).children_of(f).update(k, new_id)
                &&& final(self).kind_of(f) == old(self).kind_of(f)
                &&& final(self).text_of(f) == old(self).text_of(f)
                &&& final(self).parent_of(f) == old(self).parent_of(f)
                &&& final(self).kind_of(id as int) == old(self).kind_of(id as int)
                &&& final(self).text_of(id as int) == old(self).text_of(id as int)
                &&& final(self).children_of(id as int) == old(self).children_of(id as int)
                &&& final(self).kind_of(new_id as int) == old(self).kind_of(new_id as int)
                &&& final(self).text_of(new_id as int) == old(self).text_of(new_id as int)
                &&& final(self).children_of(new_id as int) == old(self).children_of(new_id as int)
                &&& forall|j: int|
                    0 <= j < old(self).node_count() && j != f && j != id && j != new_id
                        ==> final(self).node_unchanged(old(self), j)
            }),
    {
        proof {
            assert(old(self).node_wf(id as int));
        }
        let f = match self.nodes[id].parent {
            Some(f) => f,
            None => vstd::pervasive::unreached(),
        };
        let k = find_child(&self.nodes[f].children, id);
        let ghost pre = *self;
        let node_f = &mut self.nodes[f];
        let slot = &mut node_f.children[k];
        *slot = new_id;
        let node_old = &mut self.nodes[id];
        node_old.parent = None;
        let node_new = &mut self.nodes[new_id];
        node_new.parent = Some(f);
        self.muts = Ghost(self.muts@ + 1);
        proof {
            let fi = f as int;
            let olds = pre.nodes@[fi].children@;
            let news = self.nodes@[fi].children@;
            assert(news == olds.update(k as int, new_id));
            assert(pre.node_wf(fi));
            assert(vstd::std_specs::vec::spec_vec_len(&pre.nodes) == pre.nodes@.len());
            assert forall|x: int| 0 <= x < olds.len() implies olds[x] != new_id by {
                if olds[x] == new_id {
                    assert(pre.nodes@[new_id as int].parent == Some(f));
                }
            }
            assert forall|i: int| 0 <= i < self.nodes@.len() implies #[trigger] self.node_wf(i) by {
                assert(pre.node_wf(i));
                let n = self.nodes@[i];
                if i == fi {
                    assert forall|x1: int, x2: int|
                        0 <= x1 < news.len() && 0 <= x2 < news.len() && news[x1] == news[x2] && x1
                            != x2 implies false by {
                        assert(x1 == k || news[x1] == olds[x1]);
                        assert(x2 == k || news[x2] == olds[x2]);
                    }
                }
                if i == new_id as int {
                    assert(news[k as int] == new_id);
                    assert(news.contains(new_id));
                }
                match n.parent {
                    Some(p) => {
                        if p == f && i != new_id as int && i != id as int {
                            let x = choose|x: int| 0 <= x < olds.len() && olds[x] == i as usize;
                            assert(x != k);
                            assert(news[x] == i as usize);
                            assert(news.contains(i as usize));
                        }
                    },
                    None => {},
                }
            }
            assert((k as int) < pre.children_of(fi).len() && pre.children_of(fi)[k as int] == id
                && self.children_of(fi) == pre.children_of(fi).update(k as int, new_id));
        }
    }

    /// Rewrite the character content of text node `id` in place.
    pub fn set_text(&mut self, id: usize, text: &str)
        requires
            old(self).wf(),
            old(self).valid(id as int),
            old(self).kind_of(id as int) == NodeKind::Text,
        ensures
            final(self).wf(),
            final(self).node_count() == old(self).node_count(),
            final(self).text_of(id as int) == text@,
            final(self).kind_of(id as int) == old(self).kind_of(id as int),
            final(self).children_of(id as int) == old(self).children_of(id as int),
            final(self).parent_of(id as int) == old(self).parent_of(id as int),
            final(self).mutation_count() == old(self).mutation_count() + 1,
            final(self).listener_count() == old(self).listener_count(),
            forall|j: int|
                0 <= j < old(self).node_count() && j != id ==> final(self).node_unchanged(old(self), j),
    {
        let node = &mut self.nodes[id];
        node.text = text.to_owned();
        self.muts = Ghost(self.muts@ + 1);
        proof {
            assert forall|i: int| 0 <= i < self.nodes@.len() implies #[trigger] self.node_wf(i) by {
                assert(old(self).node_wf(i));
            }
        }
    }

    /// Read back the character content of node `id`.
    pub fn text(&self, id: usize) -> (r: &String)
        requires
            self.valid(id as int),
        ensures
            r@ == self.text_of(id as int),
    {
        &self.nodes[id].text
    }

    /// Read back the kind of node `id`.
    pub fn kind(&self, id: usize) -> (r: NodeKind)
        requires
            self.valid(id as int),
        ensures
            r == self.kind_of(id as int),
    {
        self.nodes[id].kind
    }

    /// Read back the fragment node `id` is mounted in, if any.
    pub fn parent(&self, id: usize) -> (r: Option<usize>)
        requires
            self.valid(id as int),
        ensures
            r == self.parent_of(id as int),
    {
        self.nodes[id].parent
    }

    /// Read back how many children node `id` holds.
    pub fn child_count(&self, id: usize) -> (r: usize)
        requires
            self.valid(id as int),
        ensures
            r as int == self.children_of(id as int).len(),
    {
        self.nodes[id].children.len()
    }

    /// Read back the `k`-th child of node `id`.
    pub fn child_at(&self, id: usize, k: usize) -> (r: usize)
        requires
            self.valid(id as int),
            (k as int) < self.children_of(id as int).len(),
        ensures
            r == self.children_of(id as int)[k as int],
    {
        self.nodes[id].children[k]
    }

    /// Read back how many nodes were ever created in this document.
    pub fn nodes_created(&self) -> (r: usize)
        ensures
            r as nat == self.node_count(),
    {
        self.nodes.len()
    }

    /// Read back how many native listeners were registered so far.
    pub fn listeners_registered(&self) -> (r: usize)
        ensures
            r as nat == self.listener_count(),
    {
        self.next_listener
    }

    /// Give fragment container `f` its persistent tail anchor: a fresh anchor
    /// node appended as the container's last child.
    pub fn decorate_fragment(&mut self, f: usize) -> (a: usize)
        requires
            old(self).wf(),
            old(self).valid(f as int),
            old(self).kind_of(f as int) == NodeKind::Fragment,
        ensures
            final(self).wf(),
            a as int == old(self).node_count(),
            final(self).node_count() == old(self).node_count() + 1,
            final(self).kind_of(a as int) == NodeKind::Anchor,
            final(self).children_of(a as int) == Seq::<usize>::empty(),
            final(self).parent_of(a as int) == Some(f),
            final(self).children_of(f as int) == old(self).children_of(f as int).push(a),
            final(self).kind_of(f as int) == old(self).kind_of(f as int),
            final(self).text_of(f as int) == old(self).text_of(f as int),
            final(self).parent_of(f as int) == old(self).parent_of(f as int),
            final(self).mutation_count() == old(self).mutation_count() + 2,
            final(self).listener_count() == old(self).listener_count(),
            forall|j: int|
                0 <= j < old(self).node_count() && j != f ==> final(self).node_unchanged(
                    old(self),
                    j,
                ),
    {
        let a = self.new_node(NodeKind::Anchor, String::new());
        let ghost pre = *self;
        let node_f = &mut self.nodes[f];
        node_f.children.push(a);
        let node_a = &mut self.nodes[a];
        node_a.parent = Some(f);
        self.muts = Ghost(self.muts@ + 1);
        proof {
            let fi = f as int;
            let ai = a as int;
            let olds = pre.nodes@[fi].children@;
            let news = self.nodes@[fi].children@;
            assert(pre.node_unchanged(old(self), fi));
            assert(news == olds.push(a));
            assert(pre.node_wf(fi));
            assert(vstd::std_specs::vec::spec_vec_len(&pre.nodes) == pre.nodes@.len());
            assert forall|x: int| 0 <= x < olds.len() implies olds[x] != a by {
                if olds[x] == a {
                    assert(pre.nodes@[ai].parent == Some(f));
                }
            }
            assert forall|i: int| 0 <= i < self.nodes@.len() implies #[trigger] self.node_wf(i) by {
                assert(pre.node_wf(i));
                let n = self.nodes@[i];
                if i == ai {
                    assert(news[news.len() - 1] == a);
                    assert(news.contains(a));
                }
                match n.parent {
                    Some(p) => {
                        if p == f && i != ai {
                            let x = choose|x: int| 0 <= x < olds.len() && olds[x] == i as usize;
                            assert(news[x] == i as usize);
                            assert(news.contains(i as usize));
                        }
                    },
                    None => {},
                }
            }
            assert forall|j: int|
                0 <= j < old(self).node_count() && j != fi implies self.node_unchanged(
                old(self),
                j,
            ) by {
                assert(pre.node_unchanged(old(self), j));
            }
        }
        a
    }

    /// Release the external bookkeeping kept for fragment container `f`. The
    /// tree itself is left untouched; the call only reaches the collaborator
    /// runtime's records.
    pub fn fragment_release(&mut self, f: usize)
        requires
            old(self).wf(),
            old(self).valid(f as int),
        ensures
            final(self).wf(),
            final(self).node_count() == old(self).node_count(),
            final(self).mutation_count() == old(self).mutation_count() + 1,
            final(self).listener_count() == old(self).listener_count(),
            forall|j: int|
                0 <= j < old(self).node_count() ==> final(self).node_unchanged(old(self), j),
    {
        self.muts = Ghost(self.muts@ + 1);
        proof {
            assert forall|i: int| 0 <= i < self.nodes@.len() implies #[trigger] self.node_wf(i) by {
                assert(old(self).node_wf(i));
            }
        }
    }
}

/// Which shape of handle an [`Element`] owns.
#[derive(Clone, Copy, PartialEq, Eq, Structural, Debug)]
enum Kind {
    Element,
    Fragment,
}

/// A handle to one mounted node or one anchored fragment range, tagged by
/// kind because replacing and unmounting differ between the two.
#[derive(Clone, Copy, PartialEq, Eq, Structural, Debug)]
pub struct Element {
    kind: Kind,
    node: usize,
}

impl Element {
    /// The primitive node this element owns.
    pub closed spec fn node_id(&self) -> int {
        self.node as int
    }

    /// Whether this element stands for an anchored fragment range.
    pub closed spec fn is_fragment(&self) -> bool {
        self.kind == Kind::Fragment
    }

    /// The element names a real node whose kind matches the handle's tag and
    /// is never a bare tail anchor.
    pub open spec fn wf(&self, doc: &Document) -> bool {
        &&& doc.valid(self.node_id())
        &&& (self.is_fragment() <==> doc.kind_of(self.node_id()) == NodeKind::Fragment)
        &&& doc.kind_of(self.node_id()) != NodeKind::Anchor
    }

    /// Wrap an existing primitive node as a single mounted element.
    pub fn new(node: usize, doc: &Document) -> (el: Element)
        requires
            doc.valid(node as int),
            doc.kind_of(node as int) == NodeKind::Text || doc.kind_of(node as int)
                == NodeKind::Empty,
        ensures
            el.wf(doc),
            el.node_id() == node,
            !el.is_fragment(),
    {
        Element { kind: Kind::Element, node }
    }

    /// Create a text node holding `text` and wrap it.
    pub fn new_text(text: &str, doc: &mut Document) -> (el: Element)
        requires
            old(doc).wf(),
        ensures
            final(doc).wf(),
            el.wf(final(doc)),
            !el.is_fragment(),
            el.node_id() == old(doc).node_count(),
            final(doc).node_count() == old(doc).node_count() + 1,
            final(doc).kind_of(el.node_id()) == NodeKind::Text,
            final(doc).text_of(el.node_id()) == text@,
            final(doc).parent_of(el.node_id()) is None,
            final(doc).mutation_count() == old(doc).mutation_count() + 1,
            final(doc).listener_count() == old(doc).listener_count(),
            forall|j: int|
                0 <= j < old(doc).node_count() ==> final(doc).node_unchanged(old(doc), j),
    {
        let node = doc.create_text_node(text);
        Element { kind: Kind::Element, node }
    }

    /// Create an empty placeholder node and wrap it.
    pub fn new_empty(doc: &mut Document) -> (el: Element)
        requires
            old(doc).wf(),
        ensures
            final(doc).wf(),
            el.wf(final(doc)),
            !el.is_fragment(),
            el.node_id() == old(doc).node_count(),
            final(doc).node_count() == old(doc).node_count() + 1,
            final(doc).kind_of(el.node_id()) == NodeKind::Empty,
            final(doc).parent_of(el.node_id()) is None,
            final(doc).mutation_count() == old(doc).mutation_count() + 1,
            final(doc).listener_count() == old(doc).listener_count(),
            forall|j: int|
                0 <= j < old(doc).node_count() ==> final(doc).node_unchanged(old(doc), j),
    {
        let node = doc.create_empty_node();
        Element { kind: Kind::Element, node }
    }

    /// Wrap an existing bare fragment container, first giving it its tail
    /// anchor.
    pub fn new_fragment_raw(node: usize, doc: &mut Document) -> (el: Element)
        requires
            old(doc).wf(),
            old(doc).valid(node as int),
            old(doc).kind_of(node as int) == NodeKind::Fragment,
        ensures
            final(doc).wf(),
            el.wf(final(doc)),
            el.is_fragment(),
            el.node_id() == node,
            final(doc).node_count() == old(doc).node_count() + 1,
            final(doc).children_of(node as int) == old(doc).children_of(node as int).push(
                (old(doc).node_count() as usize),
            ),
            final(doc).kind_of(old(doc).node_count() as int) == NodeKind::Anchor,
            forall|j: int|
                0 <= j < old(doc).node_count() && j != node ==> final(doc).node_unchanged(
                    old(doc),
                    j,
                ),
    {
        let _anchor = doc.decorate_fragment(node);
        Element { kind: Kind::Fragment, node }
    }

    /// Rewrite this text node's content in place.
    pub fn set_text(&self, text: &str, doc: &mut Document)
        requires
            old(doc).wf(),
            self.wf(old(doc)),
            old(doc).kind_of(self.node_id()) == NodeKind::Text,
        ensures
            final(doc).wf(),
            self.wf(final(doc)),
            final(doc).node_count() == old(doc).node_count(),
            final(doc).text_of(self.node_id()) == text@,
            final(doc).mutation_count() == old(doc).mutation_count() + 1,
            final(doc).listener_count() == old(doc).listener_count(),
            final(doc).kind_of(self.node_id()) == old(doc).kind_of(self.node_id()),
            final(doc).children_of(self.node_id()) == old(doc).children_of(self.node_id()),
            final(doc).parent_of(self.node_id()) == old(doc).parent_of(self.node_id()),
            forall|j: int|
                0 <= j < old(doc).node_count() && j != self.node_id()
                    ==> final(doc).node_unchanged(old(doc), j),
    {
        doc.set_text(self.node, text);
    }

    /// The reference a parent uses to insert this element.
    pub fn anchor(&self) -> (id: usize)
        ensures
            id as int == self.node_id(),
    {
        self.node
    }

    /// The raw primitive-node handle.
    pub fn js(&self) -> (id: usize)
        ensures
            id as int == self.node_id(),
    {
        self.node
    }

    /// Swap this mounted element, or this whole fragment range, for the
    /// detached node `new`: `new` takes over the exact sibling position. Any
    /// fragment well-formed before stays well-formed: in particular no tail
    /// anchor is disturbed.
    pub fn replace_with(&self, new: usize, doc: &mut Document)
        requires
            old(doc).wf(),
            self.wf(old(doc)),
            old(doc).valid(new as int),
            old(doc).kind_of(new as int) != NodeKind::Anchor,
            old(doc).parent_of(self.node_id()) is Some,
            old(doc).parent_of(self.node_id()) != Some(new),
            old(doc).parent_of(new as int) is None,
            new as int != self.node_id(),
        ensures
            final(doc).wf(),
            final(doc).node_count() == old(doc).node_count(),
            final(doc).mutation_count() == old(doc).mutation_count() + 1,
            final(doc).listener_count() == old(doc).listener_count(),
            final(doc).parent_of(self.node_id()) is None,
            final(doc).parent_of(new as int) == old(doc).parent_of(self.node_id()),
            ({
                let f = old(doc).parent_of(self.node_id()).unwrap() as int;
                &&& exists|k: int|
                    0 <= k < old(doc).children_of(f).len() && old(doc).children_of(f)[k] == (
                    self.node_id() as usize) && final(doc).children_of(f) == old(doc).children_of(
                        f,
                    ).update(k, new)
                &&& forall|j: int|
                    0 <= j < old(doc).node_count() && j != f && j != self.node_id() && j != new
                        ==> final(doc).node_unchanged(old(doc), j)
                &&& final(doc).kind_of(self.node_id()) == old(doc).kind_of(self.node_id())
                &&& final(doc).text_of(self.node_id()) == old(doc).text_of(self.node_id())
                &&& final(doc).children_of(self.node_id()) == old(doc).children_of(self.node_id())
                &&& final(doc).kind_of(new as int) == old(doc).kind_of(new as int)
                &&& final(doc).text_of(new as int) == old(doc).text_of(new as int)
                &&& final(doc).children_of(new as int) == old(doc).children_of(new as int)
            }),
            forall|fr: Fragment| fr.wf(old(doc)) ==> fr.wf(final(doc)),
    {
        doc.replace(self.node, new);
        proof {
            let si = self.node_id();
            let fi = old(doc).parent_of(si).unwrap() as int;
            assert(old(doc).node_wf(si));
            assert forall|fr: Fragment| fr.wf(old(doc)) implies fr.wf(doc) by {
                let ci = fr.node_id();
                let ti = fr.tail_id();
                assert(ti != si);
                assert(ti != new as int);
                assert(ti != fi);
                assert(doc.node_unchanged(old(doc), ti));
                if ci != fi && ci != si && ci != new as int {
                    assert(doc.node_unchanged(old(doc), ci));
                }
                if ci == fi {
                    let cs = old(doc).children_of(fi);
                    let k = choose|k: int|
                        0 <= k < cs.len() && cs[k] == (si as usize) && doc.children_of(fi)
                            == cs.update(k, new);
                    assert(cs[cs.len() - 1] == (ti as usize));
                    assert(k != cs.len() - 1);
                    assert(doc.children_of(ci).last() == (ti as usize));
                }
            }
        }
    }

    /// Remove this element, or this whole fragment range, from the tree. Any
    /// fragment well-formed before stays well-formed: removing children never
    /// takes the tail anchor with them.
    pub fn unmount(&self, doc: &mut Document)
        requires
            old(doc).wf(),
            self.wf(old(doc)),
        ensures
            final(doc).wf(),
            final(doc).node_count() == old(doc).node_count(),
            final(doc).mutation_count() == old(doc).mutation_count() + 1,
            final(doc).listener_count() == old(doc).listener_count(),
            final(doc).parent_of(self.node_id()) is None,
            final(doc).kind_of(self.node_id()) == old(doc).kind_of(self.node_id()),
            final(doc).text_of(self.node_id()) == old(doc).text_of(self.node_id()),
            final(doc).children_of(self.node_id()) == old(doc).children_of(self.node_id()),
            match old(doc).parent_of(self.node_id()) {
                None => forall|j: int|
                    0 <= j < old(doc).node_count() ==> final(doc).node_unchanged(old(doc), j),
                Some(fu) => ({
                    let f = fu as int;
                    &&& exists|k: int|
                        0 <= k < old(doc).children_of(f).len() && old(doc).children_of(f)[k] == (
                        self.node_id() as usize) && final(doc).children_of(f) == old(
                            doc,
                        ).children_of(f).remove(k)
                    &&& forall|j: int|
                        0 <= j < old(doc).node_count() && j != f && j != self.node_id()
                            ==> final(doc).node_unchanged(old(doc), j)
                }),
            },
            forall|fr: Fragment| fr.wf(old(doc)) ==> fr.wf(final(doc)),
    {
        doc.remove(self.node);
        proof {
            let si = self.node_id();
            assert(old(doc).node_wf(si));
            assert forall|fr: Fragment| fr.wf(old(doc)) implies fr.wf(doc) by {
                let ci = fr.node_id();
                let ti = fr.tail_id();
                assert(ti != si);
                match old(doc).parent_of(si) {
                    None => {
                        assert(doc.node_unchanged(old(doc), ti));
                        assert(doc.node_unchanged(old(doc), ci));
                    },
                    Some(fu) => {
                        let fi = fu as int;
                        assert(ti != fi);
                        assert(doc.node_unchanged(old(doc), ti));
                        if ci != fi && ci != si {
                            assert(doc.node_unchanged(old(doc), ci));
                        }
                        if ci == fi {
                            let cs = old(doc).children_of(fi);
                            let k = choose|k: int|
                                0 <= k < cs.len() && cs[k] == (si as usize) && doc.children_of(fi)
                                    == cs.remove(k);
                            assert(cs[cs.len() - 1] == (ti as usize));
                            assert(k != cs.len() - 1);
                            cs.remove_ensures(k);
                            assert(doc.children_of(ci)[cs.len() - 2] == cs[cs.len() - 1]);
                            assert(doc.children_of(ci).last() == (ti as usize));
                        }
                    },
                }
            }
        }
    }

    /// Give this handle back, releasing the external fragment-range
    /// bookkeeping when the handle owns one. Verified handles carry no
    /// destructor, so the release that the runtime guarantees on every
    /// destruction path is an explicit last call here.
    pub fn release(self, doc: &mut Document)
        requires
            old(doc).wf(),
            self.wf(old(doc)),
        ensures
            final(doc).wf(),
            final(doc).node_count() == old(doc).node_count(),
            final(doc).listener_count() == old(doc).listener_count(),
            self.is_fragment() ==> final(doc).mutation_count() == old(doc).mutation_count() + 1,
            !self.is_fragment() ==> *final(doc) == *old(doc),
            forall|j: int|
                0 <= j < old(doc).node_count() ==> final(doc).node_unchanged(old(doc), j),
    {
        match self.kind {
            Kind::Fragment => {
                doc.fragment_release(self.node);
            },
            Kind::Element => {},
        }
    }
}

/// A fragment: a container node bounded by a persistent tail anchor, the
/// stable position that appends insert in front of.
pub struct Fragment {
    el: Element,
    tail: usize,
}

impl Fragment {
    /// The container node.
    pub closed spec fn node_id(&self) -> int {
        self.el.node_id()
    }

    /// The persistent tail anchor node.
    pub closed spec fn tail_id(&self) -> int {
        self.tail as int
    }

    /// The container is a fragment node whose last child is this fragment's
    /// tail anchor; the anchor is present whatever else was appended or
    /// removed.
    pub closed spec fn wf(&self, doc: &Document) -> bool {
        &&& self.el.wf(doc)
        &&& self.el.is_fragment()
        &&& doc.valid(self.tail_id())
        &&& doc.kind_of(self.tail_id()) == NodeKind::Anchor
        &&& doc.parent_of(self.tail_id()) == Some((self.node_id() as usize))
        &&& doc.children_of(self.node_id()).len() > 0
        &&& doc.children_of(self.node_id()).last() == (self.tail_id() as usize)
    }

    /// Create a fragment: a fresh container node with its tail anchor.
    pub fn new(doc: &mut Document) -> (f: Fragment)
        requires
            old(doc).wf(),
        ensures
            final(doc).wf(),
            f.wf(final(doc)),
            f.node_id() == old(doc).node_count(),
            f.tail_id() == old(doc).node_count() + 1,
            final(doc).node_count() == old(doc).node_count() + 2,
            final(doc).children_of(f.node_id()) == Seq::<usize>::empty().push(
                (f.tail_id() as usize),
            ),
            final(doc).parent_of(f.node_id()) is None,
            final(doc).listener_count() == old(doc).listener_count(),
            forall|j: int|
                0 <= j < old(doc).node_count() ==> final(doc).node_unchanged(old(doc), j),
    {
        let node = doc.create_fragment_node();
        let ghost mid = *doc;
        let tail = doc.decorate_fragment(node);
        proof {
            assert forall|j: int| 0 <= j < old(doc).node_count() implies doc.node_unchanged(
                old(doc),
                j,
            ) by {
                assert(mid.node_unchanged(old(doc), j));
                assert(doc.node_unchanged(&mid, j));
            }
        }
        Fragment { el: Element { kind: Kind::Fragment, node }, tail }
    }

    /// Append `child` to this fragment: it is inserted just before the tail
    /// anchor, which keeps its place as the last child.
    pub fn append(&self, child: usize, doc: &mut Document)
        requires
            old(doc).wf(),
            self.wf(old(doc)),
            old(doc).valid(child as int),
            old(doc).parent_of(child as int) is None,
            child as int != self.node_id(),
        ensures
            final(doc).wf(),
            self.wf(final(doc)),
            final(doc).node_count() == old(doc).node_count(),
            final(doc).parent_of(child as int) == Some((self.node_id() as usize)),
            final(doc).children_of(self.node_id()) == old(doc).children_of(
                self.node_id(),
            ).insert(old(doc).children_of(self.node_id()).len() - 1, child),
            final(doc).mutation_count() == old(doc).mutation_count() + 1,
            final(doc).listener_count() == old(doc).listener_count(),
            final(doc).kind_of(child as int) == old(doc).kind_of(child as int),
            final(doc).text_of(child as int) == old(doc).text_of(child as int),
            final(doc).children_of(child as int) == old(doc).children_of(child as int),
            forall|j: int|
                0 <= j < old(doc).node_count() && j != self.node_id() && j != child
                    ==> final(doc).node_unchanged(old(doc), j),
    {
        doc.insert_before(self.tail, child);
        proof {
            let fi = self.node_id();
            let cs = old(doc).children_of(fi);
            let tl = (self.tail_id()) as usize;
            assert(old(doc).node_wf(fi));
            assert(cs[cs.len() - 1] == tl);
            let k = choose|k: int|
                0 <= k < cs.len() && cs[k] == tl && doc.children_of(fi) == cs.insert(k, child);
            assert(k == cs.len() - 1);
            cs.insert_ensures(k, child);
            assert(doc.children_of(fi).last() == tl);
            assert((child as int) != self.tail_id());
            assert(doc.node_unchanged(old(doc), self.tail_id()));
        }
    }

    /// The element handle for this fragment's whole range.
    pub fn el(&self) -> (el: &Element)
        ensures
            el.node_id() == self.node_id(),
    {
        &self.el
    }

    /// The persistent tail anchor's node handle.
    pub fn tail(&self) -> (id: usize)
        ensures
            id as int == self.tail_id(),
    {
        self.tail
    }
}

} // verus!
