use vstd::prelude::*;

use crate::dom::{Document, Node};
use crate::text::Text;

pub mod derived;
pub mod laws;
pub mod state_atomic;
pub mod state_mutex;
pub mod state_vec;

verus! {

/// What every state container offers beside its payload: its identity.
pub trait StateTrait {
    /// The id of the container in its runtime.
    spec fn spec_id(&self) -> usize;

    fn id(&self) -> (r: usize)
        ensures
            r == self.spec_id(),
    ;
}

/// The broadcast slot of a container: the text of the latest value sent, and the
/// state id of that send. State id 0 means nothing was sent yet; each send takes
/// the next id, so a receiver that last saw id `k` is behind exactly when `k` is
/// smaller than the slot's id.
pub struct Channel {
    pub stream: String,
    pub state_id: u64,
}

/// A live display of a container: a text node that shows the container's value,
/// or an element's attribute that holds it (`attr`), and the state id of the
/// last broadcast that it has applied.
pub struct Binding {
    pub source: usize,
    pub node: Node,
    pub seen: u64,
    pub attr: Option<String>,
}

/// The attribute name that binding `b` writes, if it writes one.
pub open spec fn attr_key(b: Binding) -> Option<Seq<char>> {
    match b.attr {
        Some(k) => Some(k@),
        None => None,
    }
}

/// What binding `b` shows in `doc`: the text of its text node, or the value of
/// its attribute.
pub open spec fn shown_by(doc: &Document, b: Binding) -> Option<Seq<char>> {
    match b.attr {
        Some(k) => doc.attr_of(b.node, k@),
        None => Some(doc.content_of(b.node)),
    }
}

/// Whether two bindings write the same place.
pub open spec fn same_target(x: Binding, y: Binding) -> bool {
    x.node == y.node && attr_key(x) == attr_key(y)
}

/// Everything that a page's containers and their displays share: the presentation
/// tree, the payload and broadcast slot of each container (by container id), and
/// every display binding.
pub struct Runtime<V> {
    pub document: Document,
    pub values: Vec<V>,
    pub channels: Vec<Channel>,
    pub bindings: Vec<Binding>,
}

impl<V: Text> Runtime<V> {
    /// The number of containers.
    pub open spec fn count(&self) -> nat {
        self.values@.len()
    }

    pub open spec fn value_of(&self, id: int) -> V {
        self.values@[id]
    }

    pub open spec fn state_id_of(&self, id: int) -> u64 {
        self.channels@[id].state_id
    }

    /// The text that a display of container `id` shows once it has caught up.
    pub open spec fn text_of(&self, id: int) -> Seq<char> {
        self.values@[id].spec_text()
    }

    /// Whether binding `b` has applied the latest broadcast of its container.
    pub open spec fn caught_up(&self, b: int) -> bool {
        self.bindings@[b].seen == self.channels@[self.bindings@[b].source as int].state_id
    }

    /// What binding `b` shows.
    pub open spec fn shown(&self, b: int) -> Option<Seq<char>> {
        shown_by(&self.document, self.bindings@[b])
    }

    pub open spec fn binding_wf(&self, b: Binding) -> bool {
        &&& b.source < self.values@.len()
        &&& b.attr is None ==> self.document.is_text(b.node)
        &&& b.attr is Some ==> self.document.is_element(b.node)
        &&& b.seen <= self.channels@[b.source as int].state_id
        &&& b.seen == self.channels@[b.source as int].state_id ==> shown_by(&self.document, b)
            == Some(self.values@[b.source as int].spec_text())
    }

    /// The slot of each container holds the text of its current value once
    /// something was sent, each binding shows the current text whenever it has
    /// caught up, and no two bindings write the same place.
    pub open spec fn wf(&self) -> bool {
        &&& self.document.wf()
        &&& self.values@.len() == self.channels@.len()
        &&& forall|c: int|
            0 <= c < self.channels@.len() && #[trigger] self.channels@[c].state_id > 0
                ==> self.channels@[c].stream@ == self.values@[c].spec_text()
        &&& forall|b: int| 0 <= b < self.bindings@.len() ==> self.binding_wf(#[trigger] self.bindings@[b])
        &&& forall|b: int, c: int|
            0 <= b < self.bindings@.len() && 0 <= c < self.bindings@.len() && b != c
                ==> !same_target(#[trigger] self.bindings@[b], #[trigger] self.bindings@[c])
    }

    /// `self` is `old` after a send of value `v` on container `id`: the value is
    /// stored, the slot takes the next state id and the value's text, and nothing
    /// else changes.
    pub open spec fn is_put(&self, old: &Runtime<V>, id: int, v: V) -> bool {
        &&& self.values@ == old.values@.update(id, v)
        &&& self.channels@.len() == old.channels@.len()
        &&& self.channels@[id].state_id == old.channels@[id].state_id + 1
        &&& self.channels@[id].stream@ == v.spec_text()
        &&& forall|c: int| 0 <= c < self.channels@.len() && c != id ==> #[trigger] self.channels@[c] == old.channels@[c]
        &&& self.bindings@ == old.bindings@
        &&& self.document == old.document
    }

    /// A runtime with an empty document and no container.
    pub fn new() -> (r: Runtime<V>)
        ensures
            r.wf(),
            r.count() == 0,
            r.bindings@.len() == 0,
            r.document.nodes@.len() == 1,
            r.document.is_element(r.document.body),
            r.document.children_of(r.document.body).len() == 0,
            r.document.journal@.len() == 0,
    {
        Runtime {
            document: Document::new(),
            values: Vec::new(),
            channels: Vec::new(),
            bindings: Vec::new(),
        }
    }

    /// Adds a container holding `v`, with nothing sent yet; returns its id.
    pub fn add_container(&mut self, v: V) -> (id: usize)
        requires
            old(self).wf(),
            old(self).count() < usize::MAX,
        ensures
            final(self).wf(),
            id == old(self).count(),
            final(self).values@ == old(self).values@.push(v),
            final(self).channels@.len() == old(self).channels@.len() + 1,
            final(self).state_id_of(id as int) == 0,
            forall|c: int| 0 <= c < old(self).channels@.len() ==> #[trigger] final(self).channels@[c] == old(self).channels@[c],
            final(self).bindings@ == old(self).bindings@,
            final(self).document == old(self).document,
    {
        let id = self.values.len();
        self.values.push(v);
        self.channels.push(Channel { stream: String::new(), state_id: 0 });
        proof {
            assert forall|b: int| 0 <= b < self.bindings@.len() implies self.binding_wf(#[trigger] self.bindings@[b]) by {
                assert(old(self).binding_wf(old(self).bindings@[b]));
                assert(self.values@[self.bindings@[b].source as int] == old(self).values@[self.bindings@[b].source as int]);
                assert(self.channels@[self.bindings@[b].source as int] == old(self).channels@[self.bindings@[b].source as int]);
            }
        }
        id
    }

    /// Stores `v` in container `id` and broadcasts its text.
    pub fn put(&mut self, id: usize, v: V)
        requires
            old(self).wf(),
            id < old(self).count(),
            old(self).state_id_of(id as int) < u64::MAX,
        ensures
            final(self).wf(),
            final(self).is_put(old(self), id as int, v),
    {
        let t = v.text();
        self.values.set(id, v);
        let next = self.channels[id].state_id + 1;
        self.channels.set(id, Channel { stream: t, state_id: next });
        proof {
            assert forall|b: int| 0 <= b < self.bindings@.len() implies self.binding_wf(#[trigger] self.bindings@[b]) by {
                assert(old(self).binding_wf(old(self).bindings@[b]));
            }
        }
    }

    /// Broadcasts the current value of container `id` again, without changing it.
    pub fn update(&mut self, id: usize)
        requires
            old(self).wf(),
            id < old(self).count(),
            old(self).state_id_of(id as int) < u64::MAX,
        ensures
            final(self).wf(),
            final(self).is_put(old(self), id as int, old(self).value_of(id as int)),
    {
        let t = self.values[id].text();
        let next = self.channels[id].state_id + 1;
        self.channels.set(id, Channel { stream: t, state_id: next });
        proof {
            assert(self.values@ == old(self).values@.update(id as int, old(self).values@[id as int]));
            assert forall|b: int| 0 <= b < self.bindings@.len() implies self.binding_wf(#[trigger] self.bindings@[b]) by {
                assert(old(self).binding_wf(old(self).bindings@[b]));
            }
        }
    }

    /// Creates a text node showing container `id`'s current value and subscribes
    /// it to the container's broadcasts, as a fresh receiver: it has seen no state
    /// id yet. Returns the node; its binding is the last one.
    pub fn display(&mut self, id: usize) -> (n: Node)
        requires
            old(self).wf(),
            id < old(self).count(),
            old(self).document.nodes@.len() < usize::MAX,
        ensures
            final(self).wf(),
            final(self).values@ == old(self).values@,
            final(self).channels@ == old(self).channels@,
            final(self).bindings@.len() == old(self).bindings@.len() + 1,
            forall|b: int| 0 <= b < old(self).bindings@.len() ==> #[trigger] final(self).bindings@[b] == old(self).bindings@[b],
            final(self).bindings@.last() == (Binding { source: id, node: n, seen: 0, attr: None }),
            n.index == old(self).document.nodes@.len(),
            final(self).document.nodes@.len() == old(self).document.nodes@.len() + 1,
            forall|m: int| 0 <= m < old(self).document.nodes@.len() ==> #[trigger] final(self).document.nodes@[m]
                == old(self).document.nodes@[m],
            final(self).document.content_of(n) == old(self).text_of(id as int),
            final(self).document.body == old(self).document.body,
            final(self).document.journal@ == old(self).document.journal@,
    {
        let t = self.values[id].text();
        let n = self.document.create_text_node(t.as_str());
        self.bindings.push(Binding { source: id, node: n, seen: 0, attr: None });
        proof {
            assert forall|b: int| 0 <= b < self.bindings@.len() implies self.binding_wf(#[trigger] self.bindings@[b]) by {
                if b < old(self).bindings@.len() {
                    assert(old(self).binding_wf(old(self).bindings@[b]));
                    assert(old(self).document.contains(old(self).bindings@[b].node));
                    assert(self.bindings@[b] == old(self).bindings@[b]);
                    assert(self.document.nodes@[self.bindings@[b].node.index as int] == old(self).document.nodes@[self.bindings@[b].node.index as int]);
                }
            }
        }
        n
    }

    /// Whether some binding already writes attribute `key` of `node`.
    fn attr_taken(&self, node: Node, key: &str) -> (r: bool)
        ensures
            r == exists|b: int| 0 <= b < self.bindings@.len() && #[trigger] self.bindings@[b].node == node
                && attr_key(self.bindings@[b]) == Some(key@),
    {
        let k = String::from_str(key);
        let mut i: usize = 0;
        while i < self.bindings.len()
            invariant
                i <= self.bindings@.len(),
                k@ == key@,
                forall|b: int| 0 <= b < i ==> !(#[trigger] self.bindings@[b].node == node
                    && attr_key(self.bindings@[b]) == Some(key@)),
            decreases self.bindings@.len() - i,
        {
            if self.bindings[i].node == node {
                match &self.bindings[i].attr {
                    Some(a) => {
                        if *a == k {
                            return true;
                        }
                    },
                    None => {},
                }
            }
            i = i + 1;
        }
        false
    }

    /// Binds attribute `key` of element `node` to container `id`: the attribute
    /// is given the container's current text at once, and follows its broadcasts
    /// as a fresh receiver. Fails, changing nothing, when a binding already
    /// writes that attribute.
    pub fn bind_attr(&mut self, id: usize, node: Node, key: &str) -> (r: bool)
        requires
            old(self).wf(),
            id < old(self).count(),
            old(self).document.is_element(node),
        ensures
            final(self).wf(),
            r == !exists|b: int| 0 <= b < old(self).bindings@.len() && #[trigger] old(self).bindings@[b].node == node
                && attr_key(old(self).bindings@[b]) == Some(key@),
            !r ==> *final(self) == *old(self),
            r ==> final(self).bindings@.len() == old(self).bindings@.len() + 1,
            r ==> forall|b: int| 0 <= b < old(self).bindings@.len() ==> #[trigger] final(self).bindings@[b] == old(self).bindings@[b],
            r ==> final(self).bindings@.last().source == id && final(self).bindings@.last().node == node
                && final(self).bindings@.last().seen == 0 && attr_key(final(self).bindings@.last()) == Some(key@),
            r ==> final(self).document.attr_of(node, key@) == Some(old(self).text_of(id as int)),
            r ==> final(self).document.others_kept(&old(self).document, node),
            final(self).values@ == old(self).values@,
            final(self).channels@ == old(self).channels@,
    {
        if self.attr_taken(node, key) {
            return false;
        }
        let t = self.values[id].text();
        self.document.set_attr(node, key, t.as_str());
        self.bindings.push(Binding { source: id, node, seen: 0, attr: Some(String::from_str(key)) });
        proof {
            let nb = self.bindings@.last();
            assert forall|b: int| 0 <= b < self.bindings@.len() implies self.binding_wf(#[trigger] self.bindings@[b]) by {
                if b < old(self).bindings@.len() {
                    let bb = old(self).bindings@[b];
                    assert(old(self).binding_wf(bb));
                    assert(self.bindings@[b] == bb);
                    if bb.node == node {
                        assert(bb.attr is Some);
                        assert(attr_key(bb) != Some(key@));
                    } else {
                        assert(self.document.nodes@[bb.node.index as int] == old(self).document.nodes@[bb.node.index as int]);
                    }
                }
            }
            assert forall|x: int, y: int|
                0 <= x < self.bindings@.len() && 0 <= y < self.bindings@.len() && x != y
                    implies !same_target(#[trigger] self.bindings@[x], #[trigger] self.bindings@[y]) by {
                if x < old(self).bindings@.len() && y < old(self).bindings@.len() {
                    assert(!same_target(old(self).bindings@[x], old(self).bindings@[y]));
                }
            }
        }
        true
    }

    /// One turn of binding `b`'s task: when its container has broadcast since the
    /// binding last looked, the node is given the latest text and the binding
    /// takes the latest state id. Returns whether it wrote to the node.
    pub fn poll(&mut self, b: usize) -> (wrote: bool)
        requires
            old(self).wf(),
            b < old(self).bindings@.len(),
        ensures
            final(self).wf(),
            wrote == !old(self).caught_up(b as int),
            final(self).caught_up(b as int),
            final(self).shown(b as int) == Some(final(self).text_of(final(self).bindings@[b as int].source as int)),
            final(self).values@ == old(self).values@,
            final(self).channels@ == old(self).channels@,
            final(self).bindings@.len() == old(self).bindings@.len(),
            forall|c: int| 0 <= c < final(self).bindings@.len() && c != b ==> #[trigger] final(self).bindings@[c] == old(self).bindings@[c],
            final(self).bindings@[b as int].source == old(self).bindings@[b as int].source,
            final(self).bindings@[b as int].node == old(self).bindings@[b as int].node,
            final(self).bindings@[b as int].attr == old(self).bindings@[b as int].attr,
            wrote ==> final(self).document.others_kept(&old(self).document, old(self).bindings@[b as int].node),
            wrote ==> final(self).document.journal@ == old(self).document.journal@.push(old(self).bindings@[b as int].node)
                || final(self).document.journal@ == old(self).document.journal@,
            !wrote ==> final(self).document == old(self).document,
            final(self).document.shape_kept(&old(self).document),
    {
        let src = self.bindings[b].source;
        let node = self.bindings[b].node;
        let seen = self.bindings[b].seen;
        proof {
            assert(old(self).binding_wf(old(self).bindings@[b as int]));
        }
        if seen < self.channels[src].state_id {
            let latest = self.channels[src].state_id;
            match &self.bindings[b].attr {
                Some(k) => self.document.set_attr(node, k.as_str(), self.channels[src].stream.as_str()),
                None => self.document.set_text(node, self.channels[src].stream.as_str()),
            }
            self.bindings[b].seen = latest;
            proof {
                assert forall|m: int| 0 <= m < old(self).document.nodes@.len() implies #[trigger] self.document.node_shape_kept(&old(self).document, m) by {}
                let bb = old(self).bindings@[b as int];
                assert forall|c: int| 0 <= c < self.bindings@.len() implies self.binding_wf(#[trigger] self.bindings@[c]) by {
                    let bc = self.bindings@[c];
                    if c != b {
                        assert(old(self).binding_wf(old(self).bindings@[c]));
                        assert(!same_target(bb, bc));
                        if bc.node != node {
                            assert(self.document.nodes@[bc.node.index as int] == old(self).document.nodes@[bc.node.index as int]);
                        } else if bb.attr is Some {
                            assert(attr_key(bc) != attr_key(bb));
                        }
                    }
                }
                assert forall|x: int, y: int|
                    0 <= x < self.bindings@.len() && 0 <= y < self.bindings@.len() && x != y
                        implies !same_target(#[trigger] self.bindings@[x], #[trigger] self.bindings@[y]) by {
                    assert(!same_target(old(self).bindings@[x], old(self).bindings@[y]));
                }
            }
            true
        } else {
            false
        }
    }

    /// Binding `b` of `self` has the source, node and attribute that it has in `old`.
    pub open spec fn same_bindings(&self, old: &Runtime<V>) -> bool {
        &&& self.bindings@.len() == old.bindings@.len()
        &&& self.keeps_bindings(old)
    }

    /// Every binding of `old` is here at the same position, with the same source,
    /// node and attribute.
    pub open spec fn keeps_bindings(&self, old: &Runtime<V>) -> bool {
        &&& old.bindings@.len() <= self.bindings@.len()
        &&& forall|b: int| 0 <= b < old.bindings@.len() ==> {
            &&& (#[trigger] self.bindings@[b]).source == old.bindings@[b].source
            &&& self.bindings@[b].node == old.bindings@[b].node
            &&& self.bindings@[b].attr == old.bindings@[b].attr
        }
    }

    /// Entry `j` of the journal names the node of a binding that had not caught
    /// up in `old`.
    pub open spec fn write_of_behind(&self, old: &Runtime<V>, j: int) -> bool {
        exists|b: int|
            0 <= b < old.bindings@.len() && #[trigger] old.bindings@[b].node == self.document.journal@[j]
                && !old.caught_up(b)
    }

    /// Entry `j` of the journal names the node of a binding of container `x` in
    /// `old`.
    pub open spec fn write_of_source(&self, old: &Runtime<V>, j: int, x: int) -> bool {
        exists|b: int|
            0 <= b < old.bindings@.len() && #[trigger] old.bindings@[b].node == self.document.journal@[j]
                && old.bindings@[b].source == x
    }

    /// Every write that `self`'s journal holds beyond `old`'s went to the node of a
    /// binding that had not caught up in `old`, and every other node is unchanged.
    pub open spec fn writes_only_behind(&self, old: &Runtime<V>) -> bool {
        &&& self.document.nodes@.len() == old.document.nodes@.len()
        &&& self.document.body == old.document.body
        &&& old.document.journal@.len() <= self.document.journal@.len()
        &&& self.document.journal@.subrange(0, old.document.journal@.len() as int) == old.document.journal@
        &&& forall|j: int|
            old.document.journal@.len() <= j < self.document.journal@.len() ==> #[trigger] self.write_of_behind(old, j)
        &&& forall|m: int|
            0 <= m < self.document.nodes@.len() && (forall|b: int|
                0 <= b < old.bindings@.len() && #[trigger] old.bindings@[b].node.index == m ==> old.caught_up(b))
                ==> #[trigger] self.document.nodes@[m] == old.document.nodes@[m]
    }

    /// Lets every binding's task take its turn: afterwards every display shows the
    /// current text of its container. Only nodes of bindings that were behind are
    /// written to.
    pub fn settle(&mut self)
        requires
            old(self).wf(),
        ensures
            final(self).wf(),
            final(self).values@ == old(self).values@,
            final(self).channels@ == old(self).channels@,
            final(self).same_bindings(old(self)),
            forall|b: int| 0 <= b < final(self).bindings@.len() ==> #[trigger] final(self).caught_up(b),
            forall|b: int| 0 <= b < final(self).bindings@.len() ==> #[trigger] final(self).shown(b)
                == Some(final(self).text_of(final(self).bindings@[b].source as int)),
            final(self).writes_only_behind(old(self)),
            final(self).document.shape_kept(&old(self).document),
    {
        let n = self.bindings.len();
        let mut i: usize = 0;
        proof {
            assert(self.document.journal@.subrange(0, self.document.journal@.len() as int) =~= self.document.journal@);
        }
        while i < n
            invariant
                self.wf(),
                n == old(self).bindings@.len(),
                i <= n,
                self.values@ == old(self).values@,
                self.channels@ == old(self).channels@,
                self.same_bindings(old(self)),
                forall|c: int| 0 <= c < i ==> #[trigger] self.caught_up(c),
                forall|c: int| i <= c < n ==> #[trigger] self.bindings@[c] == old(self).bindings@[c],
                self.writes_only_behind(old(self)),
                self.document.shape_kept(&old(self).document),
            decreases n - i,
        {
            let ghost before = *self;
            let wrote = self.poll(i);
            proof {
                assert forall|m: int| 0 <= m < old(self).document.nodes@.len() implies #[trigger] self.document.node_shape_kept(&old(self).document, m) by {
                    assert(before.document.node_shape_kept(&old(self).document, m));
                    assert(self.document.node_shape_kept(&before.document, m));
                }
                let bi = old(self).bindings@[i as int];
                if wrote {
                    assert(!old(self).caught_up(i as int));
                    let oj = old(self).document.journal@;
                    let bj = before.document.journal@;
                    let nj = self.document.journal@;
                    assert(nj.subrange(0, oj.len() as int) =~= oj) by {
                        assert(bj.subrange(0, oj.len() as int) == oj);
                        assert(nj.subrange(0, bj.len() as int) =~= bj);
                    }
                    assert forall|j: int| oj.len() <= j < nj.len() implies #[trigger] self.write_of_behind(old(self), j) by {
                        if j < bj.len() {
                            assert(nj[j] == bj[j]);
                            assert(before.write_of_behind(old(self), j));
                            let w = choose|w: int| 0 <= w < old(self).bindings@.len() && #[trigger] old(self).bindings@[w].node == bj[j]
                                && !old(self).caught_up(w);
                            assert(old(self).bindings@[w].node == nj[j]);
                        } else {
                            assert(nj == bj.push(bi.node));
                            assert(nj[j] == bi.node);
                            assert(old(self).bindings@[i as int].node == nj[j]);
                        }
                    }
                    assert forall|m: int|
                        0 <= m < self.document.nodes@.len() && (forall|b: int|
                            0 <= b < old(self).bindings@.len() && #[trigger] old(self).bindings@[b].node.index == m ==> old(self).caught_up(b))
                            implies #[trigger] self.document.nodes@[m] == old(self).document.nodes@[m] by {
                        if m == bi.node.index {
                            assert(old(self).bindings@[i as int].node.index == m);
                        }
                    }
                }
                if !wrote {
                    assert forall|j: int| old(self).document.journal@.len() <= j < self.document.journal@.len()
                        implies #[trigger] self.write_of_behind(old(self), j) by {
                        assert(before.write_of_behind(old(self), j));
                        let w = choose|w: int| 0 <= w < old(self).bindings@.len() && #[trigger] old(self).bindings@[w].node
                            == before.document.journal@[j] && !old(self).caught_up(w);
                        assert(old(self).bindings@[w].node == self.document.journal@[j]);
                    }
                }
                assert(forall|m: int|
            0 <= m < self.document.nodes@.len() && (forall|b: int|
                0 <= b < old(self).bindings@.len() && #[trigger] old(self).bindings@[b].node.index == m ==> old(self).caught_up(b))
                ==> #[trigger] self.document.nodes@[m] == old(self).document.nodes@[m]);
                assert forall|c: int| 0 <= c <= i implies #[trigger] self.caught_up(c) by {
                    if c < i {
                        assert(before.caught_up(c));
                        assert(self.bindings@[c] == before.bindings@[c]);
                    }
                }
            }
            i = i + 1;
        }
        proof {
            assert forall|b: int| 0 <= b < self.bindings@.len() implies #[trigger] self.shown(b)
                == Some(self.text_of(self.bindings@[b].source as int)) by {
                assert(self.binding_wf(self.bindings@[b]));
                assert(self.caught_up(b));
            }
        }
    }
}

} // verus!
