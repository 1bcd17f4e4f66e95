use vstd::prelude::*;

use crate::order::{lemma_lt_irreflexive, lemma_lt_total, lemma_lt_transitive, str_less, str_lt};

verus! {

/// A handle on one node of a `Document`: its position in the document's arena.
#[derive(Clone, Copy, PartialEq, Eq, Structural)]
pub struct Node {
    pub index: usize,
}

/// What a presentation node is.
#[derive(Clone, Copy, PartialEq, Eq, Structural)]
pub enum NodeKind {
    Element,
    Text,
}

/// One presentation node: an element with a tag, or a piece of text.
pub struct NodeData {
    pub kind: NodeKind,
    /// The tag of an element, or the content of a text node.
    pub content: String,
    pub children: Vec<Node>,
    /// Attribute names and values; no name occurs twice.
    pub attrs: Vec<(String, String)>,
    /// The element's id, once one was set.
    pub id: Option<String>,
    /// The element's classes, in increasing order; none occurs twice.
    pub classes: Vec<String>,
    /// The events that a listener is registered for; none occurs twice.
    pub listeners: Vec<String>,
}

/// An in-memory presentation tree: the nodes, the root that pages are mounted
/// into, and the journal of every write made to a node.
pub struct Document {
    pub nodes: Vec<NodeData>,
    pub body: Node,
    pub journal: Vec<Node>,
}

/// Whether no attribute name occurs twice.
pub open spec fn keys_unique(attrs: Seq<(String, String)>) -> bool {
    forall|i: int, j: int|
        0 <= i < attrs.len() && 0 <= j < attrs.len() && i != j ==> #[trigger] attrs[i].0@
            != #[trigger] attrs[j].0@
}

/// Child `k` of element `root` is a text node holding a result of `func(j)`.
pub open spec fn shows_item<F: Fn(usize) -> String>(doc: &Document, root: Node, k: int, func: F, j: int) -> bool {
    let c = doc.children_of(root)[k];
    &&& doc.is_text(c)
    &&& exists|s: String| func.ensures((j as usize,), s) && s@ == doc.content_of(c)
}

/// Whether the strings of `s` are in strictly increasing order.
pub open spec fn sorted_strings(s: Seq<String>) -> bool {
    forall|i: int, j: int| 0 <= i < j < s.len() ==> str_lt(#[trigger] s[i]@, #[trigger] s[j]@)
}

proof fn lemma_sorted_unique(s: Seq<String>)
    requires
        sorted_strings(s),
    ensures
        strings_unique(s),
{
    assert forall|i: int, j: int| 0 <= i < s.len() && 0 <= j < s.len() && i != j implies #[trigger] s[i]@ != #[trigger] s[j]@ by {
        if i < j {
            assert(str_lt(s[i]@, s[j]@));
        } else {
            assert(str_lt(s[j]@, s[i]@));
        }
        lemma_lt_irreflexive(s[i]@);
    }
}

/// `s` with `k` inserted at its place in the order, when it is not there yet.
fn add_sorted(s: &mut Vec<String>, k: &str) -> (added: bool)
    requires
        sorted_strings(old(s)@),
    ensures
        sorted_strings(final(s)@),
        strings_unique(final(s)@),
        added == !has_string(old(s)@, k@),
        !added ==> final(s)@ == old(s)@,
        has_string(final(s)@, k@),
        forall|x: Seq<char>| x != k@ ==> (has_string(final(s)@, x) <==> has_string(old(s)@, x)),
{
    let mut j: usize = 0;
    while j < s.len() && str_less(s[j].as_str(), k)
        invariant
            j <= s@.len(),
            s@ == old(s)@,
            forall|i: int| 0 <= i < j ==> str_lt(#[trigger] s@[i]@, k@),
        decreases s@.len() - j,
    {
        j = j + 1;
    }
    let o = Ghost(s@);
    if j < s.len() && s[j].as_str().len() == k.len() && s[j] == String::from_str(k) {
        proof {
            lemma_sorted_unique(o@);
        }
        return false;
    }
    proof {
        // every later string comes after `k`
        assert forall|i: int| j <= i < o@.len() implies str_lt(k@, #[trigger] o@[i]@) by {
            assert(!str_lt(o@[j as int]@, k@));
            assert(o@[j as int]@ != k@);
            lemma_lt_total(o@[j as int]@, k@);
            if i > j {
                assert(str_lt(o@[j as int]@, o@[i]@));
                lemma_lt_transitive(k@, o@[j as int]@, o@[i]@);
            }
        }
        assert forall|i: int| 0 <= i < o@.len() implies #[trigger] o@[i]@ != k@ by {
            if i < j {
                lemma_lt_irreflexive(k@);
            } else {
                lemma_lt_irreflexive(k@);
            }
        }
    }
    s.insert(j, String::from_str(k));
    proof {
        let n = s@;
        assert(n[j as int]@ == k@);
        assert forall|a: int, b: int| 0 <= a < b < n.len() implies str_lt(#[trigger] n[a]@, #[trigger] n[b]@) by {
            if a < j && b < j {
                assert(n[a] == o@[a] && n[b] == o@[b]);
            } else if a < j && b == j {
                assert(n[a] == o@[a]);
            } else if a < j {
                assert(n[a] == o@[a] && n[b] == o@[b - 1]);
                assert(str_lt(o@[a]@, k@));
                lemma_lt_transitive(o@[a]@, k@, o@[b - 1]@);
            } else if a == j {
                assert(n[b] == o@[b - 1]);
            } else {
                assert(n[a] == o@[a - 1] && n[b] == o@[b - 1]);
            }
        }
        lemma_sorted_unique(n);
        assert forall|x: Seq<char>| x != k@ implies (has_string(n, x) <==> has_string(o@, x)) by {
            if has_string(n, x) {
                let i = choose|i: int| 0 <= i < n.len() && #[trigger] n[i]@ == x;
                let oi = if i < j { i } else { i - 1 };
                assert(o@[oi]@ == x);
            }
            if has_string(o@, x) {
                let i = choose|i: int| 0 <= i < o@.len() && #[trigger] o@[i]@ == x;
                let ni = if i < j { i } else { i + 1 };
                assert(n[ni]@ == x);
            }
        }
        assert forall|i: int| 0 <= i < o@.len() implies #[trigger] o@[i]@ != k@ by {}
    }
    true
}

/// Whether no string occurs twice in `s`.
pub open spec fn strings_unique(s: Seq<String>) -> bool {
    forall|i: int, j: int| 0 <= i < s.len() && 0 <= j < s.len() && i != j ==> #[trigger] s[i]@ != #[trigger] s[j]@
}

/// Whether `s` holds string `k`.
pub open spec fn has_string(s: Seq<String>, k: Seq<char>) -> bool {
    exists|i: int| 0 <= i < s.len() && #[trigger] s[i]@ == k
}

/// The position of `k` in `s`, if it is there.
fn find_string(s: &Vec<String>, k: &str) -> (r: Option<usize>)
    ensures
        match r {
            Some(i) => i < s@.len() && s@[i as int]@ == k@,
            None => !has_string(s@, k@),
        },
{
    let key = String::from_str(k);
    let mut i: usize = 0;
    while i < s.len()
        invariant
            i <= s@.len(),
            key@ == k@,
            forall|j: int| 0 <= j < i ==> #[trigger] s@[j]@ != k@,
        decreases s@.len() - i,
    {
        if s[i] == key {
            return Some(i);
        }
        i = i + 1;
    }
    None
}

/// `s` with `k` appended when it is not there yet.
fn add_string(s: &mut Vec<String>, k: &str) -> (added: bool)
    requires
        strings_unique(old(s)@),
    ensures
        strings_unique(final(s)@),
        added == !has_string(old(s)@, k@),
        final(s)@ == if added { old(s)@.push(final(s)@.last()) } else { old(s)@ },
        added ==> final(s)@.last()@ == k@,
        has_string(final(s)@, k@),
        forall|x: Seq<char>| x != k@ ==> (has_string(final(s)@, x) <==> has_string(old(s)@, x)),
{
    match find_string(s, k) {
        Some(_) => false,
        None => {
            s.push(String::from_str(k));
            proof {
                let n = s@;
                let o = old(s)@;
                assert(n[o.len() as int]@ == k@);
                assert forall|x: Seq<char>| x != k@ implies (has_string(n, x) <==> has_string(o, x)) by {
                    if has_string(n, x) {
                        let j = choose|j: int| 0 <= j < n.len() && #[trigger] n[j]@ == x;
                        assert(j < o.len());
                        assert(o[j]@ == x);
                    }
                    if has_string(o, x) {
                        let j = choose|j: int| 0 <= j < o.len() && #[trigger] o[j]@ == x;
                        assert(n[j]@ == x);
                    }
                }
                assert(strings_unique(n)) by {
                    assert forall|a: int, b: int| 0 <= a < n.len() && 0 <= b < n.len() && a != b implies #[trigger] n[a]@ != #[trigger] n[b]@ by {
                        if a < o.len() && b < o.len() {
                            assert(n[a] == o[a] && n[b] == o[b]);
                        } else if a < o.len() {
                            assert(n[a] == o[a]);
                        } else {
                            assert(n[b] == o[b]);
                        }
                    }
                }
            }
            true
        },
    }
}

/// `s` without `k`.
fn drop_string(s: &mut Vec<String>, k: &str) -> (removed: bool)
    requires
        strings_unique(old(s)@),
    ensures
        strings_unique(final(s)@),
        removed == has_string(old(s)@, k@),
        !removed ==> final(s)@ == old(s)@,
        removed ==> exists|i: int| 0 <= i < old(s)@.len() && #[trigger] old(s)@[i]@ == k@ && final(s)@ == old(s)@.remove(i),
        !has_string(final(s)@, k@),
        forall|x: Seq<char>| x != k@ ==> (has_string(final(s)@, x) <==> has_string(old(s)@, x)),
{
    match find_string(s, k) {
        Some(i) => {
            s.remove(i);
            proof {
                let n = s@;
                let o = old(s)@;
                assert(o[i as int]@ == k@ && n == o.remove(i as int));
                assert forall|a: int, b: int| 0 <= a < n.len() && 0 <= b < n.len() && a != b implies #[trigger] n[a]@ != #[trigger] n[b]@ by {
                    let oa = if a < i { a } else { a + 1 };
                    let ob = if b < i { b } else { b + 1 };
                    assert(n[a] == o[oa] && n[b] == o[ob]);
                }
                assert forall|j: int| 0 <= j < n.len() implies #[trigger] n[j]@ != k@ by {
                    let oj = if j < i { j } else { j + 1 };
                    assert(n[j] == o[oj]);
                }
                assert forall|x: Seq<char>| x != k@ implies (has_string(n, x) <==> has_string(o, x)) by {
                    if has_string(n, x) {
                        let j = choose|j: int| 0 <= j < n.len() && #[trigger] n[j]@ == x;
                        let oj = if j < i { j } else { j + 1 };
                        assert(o[oj]@ == x);
                    }
                    if has_string(o, x) {
                        let j = choose|j: int| 0 <= j < o.len() && #[trigger] o[j]@ == x;
                        assert(j != i);
                        let nj = if j < i { j } else { j - 1 };
                        assert(n[nj]@ == x);
                    }
                }
            }
            true
        },
        None => false,
    }
}

/// The value of attribute `key` in `attrs`, if it is set.
pub open spec fn lookup(attrs: Seq<(String, String)>, key: Seq<char>) -> Option<Seq<char>> {
    if exists|i: int| 0 <= i < attrs.len() && #[trigger] attrs[i].0@ == key {
        let i = choose|i: int| 0 <= i < attrs.len() && #[trigger] attrs[i].0@ == key;
        Some(attrs[i].1@)
    } else {
        None
    }
}

proof fn lemma_lookup_at(attrs: Seq<(String, String)>, i: int)
    requires
        keys_unique(attrs),
        0 <= i < attrs.len(),
    ensures
        lookup(attrs, attrs[i].0@) == Some(attrs[i].1@),
{
}

impl Document {
    /// Every child handle and the body refer to nodes of the document, the body is an
    /// element, and no node has an attribute twice.
    pub open spec fn wf(&self) -> bool {
        &&& self.body.index < self.nodes@.len()
        &&& self.nodes@[self.body.index as int].kind == NodeKind::Element
        &&& forall|n: int| 0 <= n < self.nodes@.len() ==> self.node_wf(#[trigger] self.nodes@[n])
    }

    pub open spec fn node_wf(&self, d: NodeData) -> bool {
        &&& forall|c: int| 0 <= c < d.children@.len() ==> (#[trigger] d.children@[c]).index
            < self.nodes@.len()
        &&& keys_unique(d.attrs@)
        &&& strings_unique(d.classes@)
        &&& sorted_strings(d.classes@)
        &&& strings_unique(d.listeners@)
    }

    /// Whether `n` is a node of this document.
    pub open spec fn contains(&self, n: Node) -> bool {
        n.index < self.nodes@.len()
    }

    pub open spec fn is_element(&self, n: Node) -> bool {
        self.contains(n) && self.nodes@[n.index as int].kind == NodeKind::Element
    }

    pub open spec fn is_text(&self, n: Node) -> bool {
        self.contains(n) && self.nodes@[n.index as int].kind == NodeKind::Text
    }

    /// The tag of an element, or the text of a text node.
    pub open spec fn content_of(&self, n: Node) -> Seq<char> {
        self.nodes@[n.index as int].content@
    }

    pub open spec fn children_of(&self, n: Node) -> Seq<Node> {
        self.nodes@[n.index as int].children@
    }

    pub open spec fn attr_of(&self, n: Node, key: Seq<char>) -> Option<Seq<char>> {
        lookup(self.nodes@[n.index as int].attrs@, key)
    }

    /// Node `m` has the same kind and children as in `old`, and an element keeps
    /// its tag.
    pub open spec fn node_shape_kept(&self, old: &Document, m: int) -> bool {
        &&& self.nodes@[m].kind == old.nodes@[m].kind
        &&& self.nodes@[m].children@ == old.nodes@[m].children@
        &&& old.nodes@[m].kind == NodeKind::Element ==> self.nodes@[m].content@ == old.nodes@[m].content@
    }

    /// The nodes of `old` are all here, with their kinds and children, and
    /// elements keep their tags: only texts and attributes may have changed.
    pub open spec fn shape_kept(&self, old: &Document) -> bool {
        &&& old.nodes@.len() <= self.nodes@.len()
        &&& self.body == old.body
        &&& forall|m: int| 0 <= m < old.nodes@.len() ==> #[trigger] self.node_shape_kept(old, m)
    }

    /// Every node but `n` is as in `old`, and the node count is kept.
    pub open spec fn others_kept(&self, old: &Document, n: Node) -> bool {
        &&& self.nodes@.len() == old.nodes@.len()
        &&& self.body == old.body
        &&& forall|m: int|
            0 <= m < self.nodes@.len() && m != n.index ==> #[trigger] self.nodes@[m]
                == old.nodes@[m]
    }

    /// A document whose body is an empty element.
    pub fn new() -> (r: Document)
        ensures
            r.wf(),
            r.nodes@.len() == 1,
            r.is_element(r.body),
            r.content_of(r.body) == "body"@,
            r.children_of(r.body).len() == 0,
            r.journal@.len() == 0,
    {
        let body = NodeData {
            kind: NodeKind::Element,
            content: String::from_str("body"),
            children: Vec::new(),
            attrs: Vec::new(),
            id: None,
            classes: Vec::new(),
            listeners: Vec::new(),
        };
        let mut nodes: Vec<NodeData> = Vec::new();
        nodes.push(body);
        Document { nodes, body: Node { index: 0 }, journal: Vec::new() }
    }

    fn add_node(&mut self, kind: NodeKind, content: &str) -> (r: Node)
        requires
            old(self).wf(),
            old(self).nodes@.len() < usize::MAX,
        ensures
            final(self).wf(),
            r.index == old(self).nodes@.len(),
            final(self).nodes@ == old(self).nodes@.push(final(self).nodes@[r.index as int]),
            final(self).nodes@[r.index as int].kind == kind,
            final(self).content_of(r) == content@,
            final(self).children_of(r).len() == 0,
            final(self).nodes@[r.index as int].attrs@.len() == 0,
            final(self).body == old(self).body,
            final(self).journal@ == old(self).journal@,
    {
        let data = NodeData {
            kind,
            content: String::from_str(content),
            children: Vec::new(),
            attrs: Vec::new(),
            id: None,
            classes: Vec::new(),
            listeners: Vec::new(),
        };
        let r = Node { index: self.nodes.len() };
        self.nodes.push(data);
        proof {
            assert forall|n: int| 0 <= n < self.nodes@.len() implies self.node_wf(
                #[trigger] self.nodes@[n],
            ) by {
                if n < old(self).nodes@.len() {
                    assert(old(self).node_wf(old(self).nodes@[n]));
                }
            }
        }
        r
    }

    /// Creates a detached element with tag `name`.
    pub fn create_element(&mut self, name: &str) -> (r: Node)
        requires
            old(self).wf(),
            old(self).nodes@.len() < usize::MAX,
        ensures
            final(self).wf(),
            final(self).nodes@.len() == old(self).nodes@.len() + 1,
            r.index == old(self).nodes@.len(),
            forall|m: int| 0 <= m < old(self).nodes@.len() ==> #[trigger] final(self).nodes@[m]
                == old(self).nodes@[m],
            final(self).is_element(r),
            final(self).content_of(r) == name@,
            final(self).children_of(r).len() == 0,
            final(self).body == old(self).body,
            final(self).journal@ == old(self).journal@,
    {
        self.add_node(NodeKind::Element, name)
    }

    /// Creates a detached text node holding `text`.
    pub fn create_text_node(&mut self, text: &str) -> (r: Node)
        requires
            old(self).wf(),
            old(self).nodes@.len() < usize::MAX,
        ensures
            final(self).wf(),
            final(self).nodes@.len() == old(self).nodes@.len() + 1,
            r.index == old(self).nodes@.len(),
            forall|m: int| 0 <= m < old(self).nodes@.len() ==> #[trigger] final(self).nodes@[m]
                == old(self).nodes@[m],
            final(self).is_text(r),
            final(self).content_of(r) == text@,
            final(self).children_of(r).len() == 0,
            final(self).body == old(self).body,
            final(self).journal@ == old(self).journal@,
    {
        self.add_node(NodeKind::Text, text)
    }
    /// Replaces the text of text node `n`, and records the write.
    pub fn set_text(&mut self, n: Node, text: &str)
        requires
            old(self).wf(),
            old(self).is_text(n),
        ensures
            final(self).wf(),
            final(self).others_kept(old(self), n),
            final(self).is_text(n),
            final(self).content_of(n) == text@,
            final(self).children_of(n) == old(self).children_of(n),
            final(self).nodes@[n.index as int].attrs@ == old(self).nodes@[n.index as int].attrs@,
            final(self).journal@ == old(self).journal@.push(n),
    {
        self.nodes[n.index].content = String::from_str(text);
        self.journal.push(n);
        proof {
            assert(self.node_wf(self.nodes@[n.index as int])) by {
                assert(old(self).node_wf(old(self).nodes@[n.index as int]));
            }
            assert forall|m: int| 0 <= m < self.nodes@.len() implies self.node_wf(
                #[trigger] self.nodes@[m],
            ) by {
                assert(old(self).node_wf(old(self).nodes@[m]));
            }
        }
    }

    /// Appends `child` to the children of element `parent`.
    pub fn append_child(&mut self, parent: Node, child: Node)
        requires
            old(self).wf(),
            old(self).is_element(parent),
            old(self).contains(child),
        ensures
            final(self).wf(),
            final(self).others_kept(old(self), parent),
            final(self).is_element(parent),
            final(self).nodes@[parent.index as int].attrs == old(self).nodes@[parent.index as int].attrs,
            final(self).content_of(parent) == old(self).content_of(parent),
            final(self).children_of(parent) == old(self).children_of(parent).push(child),
            final(self).journal@ == old(self).journal@.push(parent),
    {
        self.nodes[parent.index].children.push(child);
        self.journal.push(parent);
        proof {
            assert forall|m: int| 0 <= m < self.nodes@.len() implies self.node_wf(
                #[trigger] self.nodes@[m],
            ) by {
                assert(old(self).node_wf(old(self).nodes@[m]));
                if m == parent.index {
                    let d = self.nodes@[m];
                    assert forall|c: int| 0 <= c < d.children@.len() implies (
                    #[trigger] d.children@[c]).index < self.nodes@.len() by {
                        if c < d.children@.len() - 1 {
                            assert(d.children@[c] == old(self).nodes@[m].children@[c]);
                        }
                    }
                }
            }
        }
    }

    /// Inserts `child` at position `index` among the children of element `parent`.
    pub fn insert_child(&mut self, parent: Node, index: usize, child: Node)
        requires
            old(self).wf(),
            old(self).is_element(parent),
            old(self).contains(child),
            index <= old(self).children_of(parent).len(),
        ensures
            final(self).wf(),
            final(self).others_kept(old(self), parent),
            final(self).is_element(parent),
            final(self).nodes@[parent.index as int].attrs == old(self).nodes@[parent.index as int].attrs,
            final(self).content_of(parent) == old(self).content_of(parent),
            final(self).children_of(parent) == old(self).children_of(parent).insert(
                index as int,
                child,
            ),
            final(self).journal@ == old(self).journal@.push(parent),
    {
        self.nodes[parent.index].children.insert(index, child);
        self.journal.push(parent);
        proof {
            assert forall|m: int| 0 <= m < self.nodes@.len() implies self.node_wf(
                #[trigger] self.nodes@[m],
            ) by {
                assert(old(self).node_wf(old(self).nodes@[m]));
                if m == parent.index {
                    let d = self.nodes@[m];
                    let o = old(self).nodes@[m].children@;
                    assert forall|c: int| 0 <= c < d.children@.len() implies (
                    #[trigger] d.children@[c]).index < self.nodes@.len() by {
                        if c < index {
                            assert(d.children@[c] == o[c]);
                        } else if c > index {
                            assert(d.children@[c] == o[c - 1]);
                        }
                    }
                }
            }
        }
    }

    /// Detaches the child at position `index` of element `parent`, and returns it.
    pub fn remove_child(&mut self, parent: Node, index: usize) -> (r: Node)
        requires
            old(self).wf(),
            old(self).is_element(parent),
            index < old(self).children_of(parent).len(),
        ensures
            final(self).wf(),
            final(self).others_kept(old(self), parent),
            final(self).is_element(parent),
            final(self).nodes@[parent.index as int].attrs == old(self).nodes@[parent.index as int].attrs,
            final(self).content_of(parent) == old(self).content_of(parent),
            r == old(self).children_of(parent)[index as int],
            final(self).children_of(parent) == old(self).children_of(parent).remove(index as int),
            final(self).journal@ == old(self).journal@.push(parent),
    {
        let r = self.nodes[parent.index].children.remove(index);
        self.journal.push(parent);
        proof {
            assert forall|m: int| 0 <= m < self.nodes@.len() implies self.node_wf(
                #[trigger] self.nodes@[m],
            ) by {
                assert(old(self).node_wf(old(self).nodes@[m]));
                if m == parent.index {
                    let d = self.nodes@[m];
                    let o = old(self).nodes@[m].children@;
                    assert forall|c: int| 0 <= c < d.children@.len() implies (
                    #[trigger] d.children@[c]).index < self.nodes@.len() by {
                        if c < index {
                            assert(d.children@[c] == o[c]);
                        } else {
                            assert(d.children@[c] == o[c + 1]);
                        }
                    }
                }
            }
        }
        r
    }
    /// The position of attribute `key` on node `n`, if it is set.
    fn find_attr(&self, n: Node, key: &str) -> (r: Option<usize>)
        requires
            self.wf(),
            self.contains(n),
        ensures
            match r {
                Some(i) => i < self.nodes@[n.index as int].attrs@.len()
                    && self.nodes@[n.index as int].attrs@[i as int].0@ == key@,
                None => forall|i: int|
                    0 <= i < self.nodes@[n.index as int].attrs@.len()
                        ==> #[trigger] self.nodes@[n.index as int].attrs@[i].0@ != key@,
            },
    {
        let attrs = &self.nodes[n.index].attrs;
        let k = String::from_str(key);
        let mut i: usize = 0;
        while i < attrs.len()
            invariant
                i <= attrs@.len(),
                self.contains(n),
                k@ == key@,
                attrs == &self.nodes@[n.index as int].attrs,
                forall|j: int| 0 <= j < i ==> #[trigger] attrs@[j].0@ != key@,
            decreases attrs@.len() - i,
        {
            if attrs[i].0 == k {
                return Some(i);
            }
            i = i + 1;
        }
        None
    }
    /// The value of attribute `key` on node `n`.
    pub fn get_attr(&self, n: Node, key: &str) -> (r: Option<String>)
        requires
            self.wf(),
            self.contains(n),
        ensures
            r matches Some(v) ==> self.attr_of(n, key@) == Some(v@),
            r is None ==> self.attr_of(n, key@) is None,
    {
        match self.find_attr(n, key) {
            Some(i) => {
                proof {
                    assert(self.node_wf(self.nodes@[n.index as int]));
                    lemma_lookup_at(self.nodes@[n.index as int].attrs@, i as int);
                }
                Some(self.nodes[n.index].attrs[i].1.clone())
            },
            None => None,
        }
    }

    /// Sets attribute `key` of node `n` to `value`. Nothing is written, nor
    /// journaled, when the attribute already has that value.
    pub fn set_attr(&mut self, n: Node, key: &str, value: &str)
        requires
            old(self).wf(),
            old(self).contains(n),
        ensures
            final(self).wf(),
            final(self).others_kept(old(self), n),
            final(self).nodes@[n.index as int].kind == old(self).nodes@[n.index as int].kind,
            final(self).content_of(n) == old(self).content_of(n),
            final(self).children_of(n) == old(self).children_of(n),
            final(self).attr_of(n, key@) == Some(value@),
            forall|k: Seq<char>| k != key@ ==> #[trigger] final(self).attr_of(n, k) == old(self).attr_of(n, k),
            final(self).journal@ == if old(self).attr_of(n, key@) == Some(value@) {
                old(self).journal@
            } else {
                old(self).journal@.push(n)
            },
    {
        let ghost oa = old(self).nodes@[n.index as int].attrs@;
        proof {
            assert(old(self).node_wf(old(self).nodes@[n.index as int]));
        }
        match self.find_attr(n, key) {
            Some(i) => {
                proof {
                    lemma_lookup_at(oa, i as int);
                }
                if self.nodes[n.index].attrs[i].1.as_str().len() == value.len() && self.nodes[n.index].attrs[i].1 == String::from_str(value) {
                    return;
                }
                self.nodes[n.index].attrs.set(i, (String::from_str(key), String::from_str(value)));
                proof {
                    let na = self.nodes@[n.index as int].attrs@;
                    assert(na == oa.update(i as int, na[i as int]));
                    assert(keys_unique(na)) by {
                        assert forall|a: int, b: int| 0 <= a < na.len() && 0 <= b < na.len() && a != b implies #[trigger] na[a].0@ != #[trigger] na[b].0@ by {
                            if a != i && b != i {
                                assert(na[a] == oa[a] && na[b] == oa[b]);
                            } else if a == i {
                                assert(na[b] == oa[b]);
                                assert(oa[b].0@ != oa[a].0@);
                            } else {
                                assert(na[a] == oa[a]);
                                assert(oa[b].0@ != oa[a].0@);
                            }
                        }
                    }
                    lemma_lookup_at(na, i as int);
                    assert forall|k: Seq<char>| k != key@ implies #[trigger] lookup(na, k) == lookup(oa, k) by {
                        if exists|j: int| 0 <= j < oa.len() && #[trigger] oa[j].0@ == k {
                            let j = choose|j: int| 0 <= j < oa.len() && #[trigger] oa[j].0@ == k;
                            assert(j != i);
                            assert(na[j] == oa[j]);
                            lemma_lookup_at(oa, j);
                            lemma_lookup_at(na, j);
                        } else {
                            assert forall|j: int| 0 <= j < na.len() implies #[trigger] na[j].0@ != k by {
                                if j != i {
                                    assert(na[j] == oa[j]);
                                }
                            }
                        }
                    }
                }
            },
            None => {
                self.nodes[n.index].attrs.push((String::from_str(key), String::from_str(value)));
                proof {
                    let na = self.nodes@[n.index as int].attrs@;
                    assert(na == oa.push(na[oa.len() as int]));
                    assert(keys_unique(na)) by {
                        assert forall|a: int, b: int| 0 <= a < na.len() && 0 <= b < na.len() && a != b implies #[trigger] na[a].0@ != #[trigger] na[b].0@ by {
                            if a < oa.len() {
                                assert(na[a] == oa[a]);
                            }
                            if b < oa.len() {
                                assert(na[b] == oa[b]);
                            }
                        }
                    }
                    lemma_lookup_at(na, oa.len() as int);
                    assert forall|k: Seq<char>| k != key@ implies #[trigger] lookup(na, k) == lookup(oa, k) by {
                        if exists|j: int| 0 <= j < oa.len() && #[trigger] oa[j].0@ == k {
                            let j = choose|j: int| 0 <= j < oa.len() && #[trigger] oa[j].0@ == k;
                            assert(na[j] == oa[j]);
                            lemma_lookup_at(oa, j);
                            lemma_lookup_at(na, j);
                        } else {
                            assert forall|j: int| 0 <= j < na.len() implies #[trigger] na[j].0@ != k by {
                                if j < oa.len() {
                                    assert(na[j] == oa[j]);
                                }
                            }
                        }
                    }
                }
            },
        }
        self.journal.push(n);
        proof {
            assert forall|m: int| 0 <= m < self.nodes@.len() implies self.node_wf(
                #[trigger] self.nodes@[m],
            ) by {
                assert(old(self).node_wf(old(self).nodes@[m]));
            }
        }
    }
    /// Puts `child` in place of the child at position `index` of element
    /// `parent`, which is detached.
    pub fn replace_child(&mut self, parent: Node, index: usize, child: Node)
        requires
            old(self).wf(),
            old(self).is_element(parent),
            old(self).contains(child),
            index < old(self).children_of(parent).len(),
        ensures
            final(self).wf(),
            final(self).others_kept(old(self), parent),
            final(self).is_element(parent),
            final(self).nodes@[parent.index as int].attrs == old(self).nodes@[parent.index as int].attrs,
            final(self).content_of(parent) == old(self).content_of(parent),
            final(self).children_of(parent) == old(self).children_of(parent).update(index as int, child),
            final(self).journal@ == old(self).journal@.push(parent),
    {
        self.nodes[parent.index].children.set(index, child);
        self.journal.push(parent);
        proof {
            assert forall|m: int| 0 <= m < self.nodes@.len() implies self.node_wf(
                #[trigger] self.nodes@[m],
            ) by {
                assert(old(self).node_wf(old(self).nodes@[m]));
                if m == parent.index {
                    let d = self.nodes@[m];
                    let o = old(self).nodes@[m].children@;
                    assert forall|c: int| 0 <= c < d.children@.len() implies (
                    #[trigger] d.children@[c]).index < self.nodes@.len() by {
                        if c != index {
                            assert(d.children@[c] == o[c]);
                        }
                    }
                }
            }
        }
    }

    /// Removes attribute `key` from node `n`; nothing is written when it is not set.
    pub fn remove_attr(&mut self, n: Node, key: &str)
        requires
            old(self).wf(),
            old(self).contains(n),
        ensures
            final(self).wf(),
            final(self).others_kept(old(self), n),
            final(self).nodes@[n.index as int].kind == old(self).nodes@[n.index as int].kind,
            final(self).content_of(n) == old(self).content_of(n),
            final(self).children_of(n) == old(self).children_of(n),
            final(self).attr_of(n, key@) is None,
            forall|k: Seq<char>| k != key@ ==> #[trigger] final(self).attr_of(n, k) == old(self).attr_of(n, k),
            final(self).journal@ == if old(self).attr_of(n, key@) is None {
                old(self).journal@
            } else {
                old(self).journal@.push(n)
            },
    {
        let ghost oa = old(self).nodes@[n.index as int].attrs@;
        proof {
            assert(old(self).node_wf(old(self).nodes@[n.index as int]));
        }
        match self.find_attr(n, key) {
            Some(i) => {
                proof {
                    lemma_lookup_at(oa, i as int);
                }
                self.nodes[n.index].attrs.remove(i);
                self.journal.push(n);
                proof {
                    let na = self.nodes@[n.index as int].attrs@;
                    assert(na == oa.remove(i as int));
                    assert(keys_unique(na)) by {
                        assert forall|a: int, b: int| 0 <= a < na.len() && 0 <= b < na.len() && a != b implies #[trigger] na[a].0@ != #[trigger] na[b].0@ by {
                            let oa_i = if a < i { a } else { a + 1 };
                            let ob_i = if b < i { b } else { b + 1 };
                            assert(na[a] == oa[oa_i] && na[b] == oa[ob_i]);
                        }
                    }
                    assert forall|j: int| 0 <= j < na.len() implies #[trigger] na[j].0@ != key@ by {
                        let oj = if j < i { j } else { j + 1 };
                        assert(na[j] == oa[oj]);
                    }
                    assert forall|k: Seq<char>| k != key@ implies #[trigger] lookup(na, k) == lookup(oa, k) by {
                        if exists|j: int| 0 <= j < oa.len() && #[trigger] oa[j].0@ == k {
                            let j = choose|j: int| 0 <= j < oa.len() && #[trigger] oa[j].0@ == k;
                            assert(j != i);
                            let nj = if j < i { j } else { j - 1 };
                            assert(na[nj] == oa[j]);
                            lemma_lookup_at(oa, j);
                            lemma_lookup_at(na, nj);
                        } else {
                            assert forall|j: int| 0 <= j < na.len() implies #[trigger] na[j].0@ != k by {
                                let oj = if j < i { j } else { j + 1 };
                                assert(na[j] == oa[oj]);
                            }
                        }
                    }
                    assert forall|m: int| 0 <= m < self.nodes@.len() implies self.node_wf(
                        #[trigger] self.nodes@[m],
                    ) by {
                        assert(old(self).node_wf(old(self).nodes@[m]));
                    }
                }
            },
            None => {},
        }
    }
    pub open spec fn has_class(&self, n: Node, c: Seq<char>) -> bool {
        has_string(self.nodes@[n.index as int].classes@, c)
    }

    pub open spec fn has_listener(&self, n: Node, event: Seq<char>) -> bool {
        has_string(self.nodes@[n.index as int].listeners@, event)
    }

    /// Node `n` of `self` is as in `old` but for its classes and listeners.
    pub open spec fn same_but_sets(&self, old: &Document, n: Node) -> bool {
        &&& self.others_kept(old, n)
        &&& self.nodes@[n.index as int].kind == old.nodes@[n.index as int].kind
        &&& self.nodes@[n.index as int].content == old.nodes@[n.index as int].content
        &&& self.nodes@[n.index as int].children == old.nodes@[n.index as int].children
        &&& self.nodes@[n.index as int].attrs == old.nodes@[n.index as int].attrs
        &&& self.nodes@[n.index as int].id == old.nodes@[n.index as int].id
    }

    /// Gives node `n` the id `id`; nothing is written when it already has it.
    pub fn set_id(&mut self, n: Node, id: &str)
        requires
            old(self).wf(),
            old(self).contains(n),
        ensures
            final(self).wf(),
            final(self).others_kept(old(self), n),
            final(self).nodes@[n.index as int].id matches Some(s) && s@ == id@,
            final(self).nodes@[n.index as int].kind == old(self).nodes@[n.index as int].kind,
            final(self).nodes@[n.index as int].content == old(self).nodes@[n.index as int].content,
            final(self).nodes@[n.index as int].children == old(self).nodes@[n.index as int].children,
            final(self).nodes@[n.index as int].attrs == old(self).nodes@[n.index as int].attrs,
            final(self).nodes@[n.index as int].classes == old(self).nodes@[n.index as int].classes,
            final(self).journal@ == if old(self).nodes@[n.index as int].id matches Some(s) && s@ == id@ {
                old(self).journal@
            } else {
                old(self).journal@.push(n)
            },
    {
        let new_id = String::from_str(id);
        let same = match &self.nodes[n.index].id {
            Some(s) => *s == new_id,
            None => false,
        };
        if same {
            return;
        }
        self.nodes[n.index].id = Some(new_id);
        self.journal.push(n);
        proof {
            assert forall|m: int| 0 <= m < self.nodes@.len() implies self.node_wf(#[trigger] self.nodes@[m]) by {
                assert(old(self).node_wf(old(self).nodes@[m]));
            }
        }
    }

    /// The id of node `n`, if one was set.
    pub fn get_id(&self, n: Node) -> (r: Option<String>)
        requires
            self.contains(n),
        ensures
            r == self.nodes@[n.index as int].id,
    {
        self.nodes[n.index].id.clone()
    }

    /// Adds class `c` to node `n`; nothing is written when it has it already.
    pub fn insert_class(&mut self, n: Node, c: &str)
        requires
            old(self).wf(),
            old(self).contains(n),
        ensures
            final(self).wf(),
            sorted_strings(final(self).nodes@[n.index as int].classes@),
            final(self).same_but_sets(old(self), n),
            final(self).nodes@[n.index as int].listeners == old(self).nodes@[n.index as int].listeners,
            final(self).has_class(n, c@),
            forall|x: Seq<char>| x != c@ ==> (#[trigger] final(self).has_class(n, x) <==> old(self).has_class(n, x)),
            old(self).has_class(n, c@) ==> final(self).nodes@[n.index as int].classes@ == old(self).nodes@[n.index as int].classes@,
            final(self).journal@ == if old(self).has_class(n, c@) { old(self).journal@ } else { old(self).journal@.push(n) },
    {
        proof {
            assert(old(self).node_wf(old(self).nodes@[n.index as int]));
        }
        let added = add_sorted(&mut self.nodes[n.index].classes, c);
        if added {
            self.journal.push(n);
        }
        proof {
            assert forall|m: int| 0 <= m < self.nodes@.len() implies self.node_wf(#[trigger] self.nodes@[m]) by {
                assert(old(self).node_wf(old(self).nodes@[m]));
            }
        }
    }

    /// Removes class `c` from node `n`; nothing is written when it does not have it.
    pub fn remove_class(&mut self, n: Node, c: &str)
        requires
            old(self).wf(),
            old(self).contains(n),
        ensures
            final(self).wf(),
            sorted_strings(final(self).nodes@[n.index as int].classes@),
            final(self).same_but_sets(old(self), n),
            final(self).nodes@[n.index as int].listeners == old(self).nodes@[n.index as int].listeners,
            !final(self).has_class(n, c@),
            forall|x: Seq<char>| x != c@ ==> (#[trigger] final(self).has_class(n, x) <==> old(self).has_class(n, x)),
            !old(self).has_class(n, c@) ==> final(self).nodes@[n.index as int].classes@ == old(self).nodes@[n.index as int].classes@,
            old(self).has_class(n, c@) ==> exists|i: int| 0 <= i < old(self).nodes@[n.index as int].classes@.len()
                && #[trigger] old(self).nodes@[n.index as int].classes@[i]@ == c@
                && final(self).nodes@[n.index as int].classes@ == old(self).nodes@[n.index as int].classes@.remove(i),
            final(self).journal@ == if old(self).has_class(n, c@) { old(self).journal@.push(n) } else { old(self).journal@ },
    {
        proof {
            assert(old(self).node_wf(old(self).nodes@[n.index as int]));
        }
        let removed = drop_string(&mut self.nodes[n.index].classes, c);
        if removed {
            self.journal.push(n);
        }
        proof {
            assert forall|m: int| 0 <= m < self.nodes@.len() implies self.node_wf(#[trigger] self.nodes@[m]) by {
                assert(old(self).node_wf(old(self).nodes@[m]));
            }
        }
    }

    /// Adds class `c` to node `n` when it does not have it, and removes it when
    /// it does; the class list is written either way.
    pub fn toggle_class(&mut self, n: Node, c: &str)
        requires
            old(self).wf(),
            old(self).contains(n),
        ensures
            final(self).wf(),
            sorted_strings(final(self).nodes@[n.index as int].classes@),
            final(self).same_but_sets(old(self), n),
            final(self).nodes@[n.index as int].listeners == old(self).nodes@[n.index as int].listeners,
            final(self).has_class(n, c@) == !old(self).has_class(n, c@),
            forall|x: Seq<char>| x != c@ ==> (#[trigger] final(self).has_class(n, x) <==> old(self).has_class(n, x)),
            final(self).journal@ == old(self).journal@.push(n),
    {
        proof {
            assert(old(self).node_wf(old(self).nodes@[n.index as int]));
        }
        let added = add_sorted(&mut self.nodes[n.index].classes, c);
        if !added {
            drop_string(&mut self.nodes[n.index].classes, c);
        }
        self.journal.push(n);
        proof {
            assert forall|m: int| 0 <= m < self.nodes@.len() implies self.node_wf(#[trigger] self.nodes@[m]) by {
                assert(old(self).node_wf(old(self).nodes@[m]));
            }
        }
    }

    /// The classes of node `n`, in increasing order.
    pub fn get_class(&self, n: Node) -> (r: Vec<String>)
        requires
            self.contains(n),
        ensures
            r@ == self.nodes@[n.index as int].classes@,
    {
        let cs = &self.nodes[n.index].classes;
        let mut r: Vec<String> = Vec::new();
        let mut i: usize = 0;
        while i < cs.len()
            invariant
                i <= cs@.len(),
                r@ == cs@.subrange(0, i as int),
            decreases cs@.len() - i,
        {
            r.push(cs[i].clone());
            proof {
                assert(r@ =~= cs@.subrange(0, i as int + 1));
            }
            i = i + 1;
        }
        proof {
            assert(r@ =~= cs@);
        }
        r
    }

    /// Registers a listener of `event` on node `n`, in place of any earlier one.
    pub fn add_listener(&mut self, n: Node, event: &str)
        requires
            old(self).wf(),
            old(self).contains(n),
        ensures
            final(self).wf(),
            final(self).same_but_sets(old(self), n),
            final(self).nodes@[n.index as int].classes == old(self).nodes@[n.index as int].classes,
            final(self).has_listener(n, event@),
            forall|x: Seq<char>| x != event@ ==> (#[trigger] final(self).has_listener(n, x) <==> old(self).has_listener(n, x)),
            final(self).journal@ == old(self).journal@,
    {
        proof {
            assert(old(self).node_wf(old(self).nodes@[n.index as int]));
        }
        add_string(&mut self.nodes[n.index].listeners, event);
        proof {
            assert forall|m: int| 0 <= m < self.nodes@.len() implies self.node_wf(#[trigger] self.nodes@[m]) by {
                assert(old(self).node_wf(old(self).nodes@[m]));
            }
        }
    }

    /// Unregisters the listener of `event` on node `n`, if there is one; returns
    /// whether there was.
    pub fn remove_listener(&mut self, n: Node, event: &str) -> (r: bool)
        requires
            old(self).wf(),
            old(self).contains(n),
        ensures
            final(self).wf(),
            final(self).same_but_sets(old(self), n),
            final(self).nodes@[n.index as int].classes == old(self).nodes@[n.index as int].classes,
            r == old(self).has_listener(n, event@),
            !final(self).has_listener(n, event@),
            forall|x: Seq<char>| x != event@ ==> (#[trigger] final(self).has_listener(n, x) <==> old(self).has_listener(n, x)),
            final(self).journal@ == old(self).journal@,
    {
        proof {
            assert(old(self).node_wf(old(self).nodes@[n.index as int]));
        }
        let r = drop_string(&mut self.nodes[n.index].listeners, event);
        proof {
            assert forall|m: int| 0 <= m < self.nodes@.len() implies self.node_wf(#[trigger] self.nodes@[m]) by {
                assert(old(self).node_wf(old(self).nodes@[m]));
            }
        }
        r
    }
    /// Appends `n` text nodes to element `root`, the `i`-th holding `func(i)`.
    pub fn push_texts<F: Fn(usize) -> String>(&mut self, root: Node, func: F, n: usize)
        requires
            old(self).wf(),
            old(self).is_element(root),
            old(self).nodes@.len() + n < usize::MAX,
            forall|i: usize| i < n ==> func.requires((i,)),
        ensures
            final(self).wf(),
            final(self).is_element(root),
            final(self).nodes@.len() == old(self).nodes@.len() + n,
            final(self).body == old(self).body,
            final(self).children_of(root).len() == old(self).children_of(root).len() + n,
            forall|i: int| 0 <= i < old(self).children_of(root).len() ==> #[trigger] final(self).children_of(root)[i]
                == old(self).children_of(root)[i],
            forall|i: int| 0 <= i < n ==> #[trigger] shows_item(
                final(self),
                root,
                old(self).children_of(root).len() + i,
                func,
                i,
            ),
    {
        let ghost base = old(self).children_of(root).len();
        let mut i: usize = 0;
        while i < n
            invariant
                i <= n,
                self.wf(),
                self.is_element(root),
                root.index < old(self).nodes@.len(),
                self.nodes@.len() == old(self).nodes@.len() + i,
                old(self).nodes@.len() + n < usize::MAX,
                self.body == old(self).body,
                forall|j: usize| j < n ==> func.requires((j,)),
                self.children_of(root).len() == base + i,
                base == old(self).children_of(root).len(),
                forall|j: int| 0 <= j < base ==> #[trigger] self.children_of(root)[j] == old(self).children_of(root)[j],
                forall|j: int| 0 <= j < i ==> #[trigger] shows_item(self, root, base + j, func, j),
            decreases n - i,
        {
            let s = func(i);
            let ghost d0 = *self;
            let t = self.create_text_node(s.as_str());
            self.append_child(root, t);
            proof {
                assert forall|j: int| 0 <= j <= i implies #[trigger] shows_item(self, root, base + j, func, j) by {
                    let c = self.children_of(root)[base + j];
                    if j < i {
                        assert(shows_item(&d0, root, base + j, func, j));
                        let c0 = d0.children_of(root)[base + j];
                        assert(c == c0);
                        assert(self.nodes@[c.index as int] == d0.nodes@[c.index as int]);
                        let w = choose|w: String| func.ensures((j as usize,), w) && w@ == d0.content_of(c0);
                        assert(func.ensures((j as usize,), w) && w@ == self.content_of(c));
                    } else {
                        assert(c == t);
                        assert(func.ensures((j as usize,), s) && s@ == self.content_of(c));
                    }
                }
            }
            i = i + 1;
        }
    }
}

} // verus!
