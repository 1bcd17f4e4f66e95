use vstd::prelude::*;

use super::{Binding, Runtime, StateTrait};
use super::state_atomic::StateAtomic;
use super::state_mutex::StateMutex;
use crate::html::elements::HtmlElement;
use crate::tag::Tag;
use crate::dom::{Document, Node};
use crate::text::Text;

verus! {

/// A structural change of a `StateVec`, as sent to each of its views.
#[derive(Copy)]
pub enum Change<S> {
    Insert(usize, S),
    Push(S),
    Remove(usize),
    Pop,
}

impl<S: Copy> Clone for Change<S> {
    fn clone(&self) -> (r: Self)
        ensures
            r == *self,
    {
        *self
    }
}

/// Whether `c` refers only to positions that exist in `s`.
pub open spec fn applicable<S>(s: Seq<S>, c: Change<S>) -> bool {
    match c {
        Change::Insert(i, _) => i <= s.len(),
        Change::Remove(i) => i < s.len(),
        _ => true,
    }
}

/// `s` after change `c`; a change that refers to a missing position leaves `s`
/// as it is.
pub open spec fn apply_change<S>(s: Seq<S>, c: Change<S>) -> Seq<S> {
    match c {
        Change::Insert(i, x) => if i <= s.len() { s.insert(i as int, x) } else { s },
        Change::Push(x) => s.push(x),
        Change::Remove(i) => if i < s.len() { s.remove(i as int) } else { s },
        Change::Pop => if s.len() > 0 { s.drop_last() } else { s },
    }
}

/// A view's shadow list after change `c`, where `n` is the node made for an
/// inserted or pushed item.
pub open spec fn nodes_after<S>(nodes: Seq<Node>, c: Change<S>, n: Node) -> Seq<Node> {
    match c {
        Change::Insert(i, _) => if i <= nodes.len() { nodes.insert(i as int, n) } else { nodes },
        Change::Push(_) => nodes.push(n),
        Change::Remove(i) => if i < nodes.len() { nodes.remove(i as int) } else { nodes },
        Change::Pop => if nodes.len() > 0 { nodes.drop_last() } else { nodes },
    }
}

/// `s` after the changes of `q`, oldest first.
pub open spec fn replay<S>(s: Seq<S>, q: Seq<Change<S>>) -> Seq<S>
    decreases q.len(),
{
    if q.len() == 0 {
        s
    } else {
        apply_change(replay(s, q.drop_last()), q.last())
    }
}

/// Whether each change of `q` refers only to positions that exist once the
/// changes before it are applied to `s`.
pub open spec fn replayable<S>(s: Seq<S>, q: Seq<Change<S>>) -> bool
    decreases q.len(),
{
    if q.len() == 0 {
        true
    } else {
        replayable(s, q.drop_last()) && applicable(replay(s, q.drop_last()), q.last())
    }
}

/// Taking the oldest change of a queue and applying it first gives the same
/// result, and the rest of the queue stays replayable.
pub proof fn lemma_replay_first<S>(s: Seq<S>, q: Seq<Change<S>>)
    requires
        q.len() > 0,
        replayable(s, q),
    ensures
        applicable(s, q[0]),
        replay(s, q) == replay(apply_change(s, q[0]), q.drop_first()),
        replayable(apply_change(s, q[0]), q.drop_first()),
    decreases q.len(),
{
    if q.len() == 1 {
        assert(q.drop_last() =~= Seq::<Change<S>>::empty());
        assert(q.drop_first() =~= Seq::<Change<S>>::empty());
    } else {
        let p = q.drop_last();
        lemma_replay_first(s, p);
        assert(p[0] == q[0]);
        assert(q.drop_first().drop_last() =~= p.drop_first());
        assert(q.drop_first().last() == q.last());
    }
}

/// Appending a change that is applicable to the replayed sequence keeps the
/// queue replayable, and the replay takes that change last.
pub proof fn lemma_replay_push<S>(s: Seq<S>, q: Seq<Change<S>>, c: Change<S>)
    requires
        replayable(s, q),
        applicable(replay(s, q), c),
    ensures
        replayable(s, q.push(c)),
        replay(s, q.push(c)) == apply_change(replay(s, q), c),
{
    assert(q.push(c).drop_last() =~= q);
}

/// One rendering of a `StateVec`: the element that holds it, the tag of the
/// element made for each item, the items it has rendered and the node made for
/// each (its shadow list, in the same order), and the changes sent to it that
/// it has not applied yet, oldest first.
pub struct VecView<S> {
    pub enclose: Node,
    pub item_tag: String,
    pub rendered: Vec<S>,
    pub nodes: Vec<Node>,
    pub queue: Vec<Change<S>>,
}

/// An observable sequence of state containers, with the views that render it.
pub struct StateVec<S> {
    pub items: Vec<S>,
    pub views: Vec<VecView<S>>,
}

/// Why an item could not be removed.
#[derive(Clone, Copy, Debug, PartialEq, Eq, Structural)]
pub enum StateVecError {
    /// No item of the sequence is the container given.
    NotFound,
}

impl<S> VecView<S> {
    /// Its queue, applied to what it has rendered, gives `items`; every change of
    /// the queue refers to positions that exist when it comes; and the shadow list
    /// has one node per rendered item.
    pub open spec fn tracks(&self, items: Seq<S>) -> bool {
        &&& replayable(self.rendered@, self.queue@)
        &&& replay(self.rendered@, self.queue@) == items
        &&& self.nodes@.len() == self.rendered@.len()
    }
}

/// Whether every container that `c` carries is below `n`.
pub open spec fn change_ids_below<S: StateTrait>(c: Change<S>, n: nat) -> bool {
    match c {
        Change::Insert(_, x) => x.spec_id() < n,
        Change::Push(x) => x.spec_id() < n,
        _ => true,
    }
}

impl<S> VecView<S> {
    /// The element holds exactly the shadow list's nodes, in order, and no node
    /// occurs twice in it.
    pub open spec fn mirrored(&self, doc: &Document) -> bool {
        &&& doc.is_element(self.enclose)
        &&& doc.children_of(self.enclose) == self.nodes@
        &&& forall|a: int, b: int|
            0 <= a < self.nodes@.len() && 0 <= b < self.nodes@.len() && a != b ==> #[trigger] self.nodes@[a]
                != #[trigger] self.nodes@[b]
    }
}

/// Whether node `n` of `rt` renders container `id` as an item: it is an element
/// with tag `tag` whose only child is a text node that a binding of `rt`
/// keeps showing container `id`.
pub open spec fn item_node<V: Text>(rt: &Runtime<V>, n: Node, tag: Seq<char>, id: usize) -> bool {
    &&& rt.document.is_element(n)
    &&& rt.document.content_of(n) == tag
    &&& rt.document.children_of(n).len() == 1
    &&& exists|b: int|
        0 <= b < rt.bindings@.len() && #[trigger] rt.bindings@[b].node == rt.document.children_of(n)[0]
            && rt.bindings@[b].source == id && rt.bindings@[b].attr is None
}

/// An item node stays one when its element keeps its shape and the bindings
/// are kept.
pub proof fn lemma_item_node_kept<V: Text>(rt1: &Runtime<V>, rt2: &Runtime<V>, n: Node, tag: Seq<char>, id: usize)
    requires
        item_node(rt1, n, tag, id),
        n.index < rt2.document.nodes@.len(),
        rt2.document.node_shape_kept(&rt1.document, n.index as int),
        rt2.keeps_bindings(rt1),
    ensures
        item_node(rt2, n, tag, id),
{
    let b = choose|b: int|
        0 <= b < rt1.bindings@.len() && #[trigger] rt1.bindings@[b].node == rt1.document.children_of(n)[0]
            && rt1.bindings@[b].source == id && rt1.bindings@[b].attr is None;
    assert(rt2.bindings@[b].node == rt2.document.children_of(n)[0]);
}

/// Makes the node of one item: an element with tag `item_tag` that holds a
/// display of container `id`.
fn render_item<V: Text>(rt: &mut Runtime<V>, item_tag: &str, id: usize) -> (n: Node)
    requires
        old(rt).wf(),
        id < old(rt).count(),
        old(rt).document.nodes@.len() + 2 < usize::MAX,
    ensures
        final(rt).wf(),
        final(rt).values@ == old(rt).values@,
        final(rt).channels@ == old(rt).channels@,
        n.index == old(rt).document.nodes@.len(),
        final(rt).document.is_element(n),
        item_node(final(rt), n, item_tag@, id),
        final(rt).bindings@ == old(rt).bindings@.push(Binding { source: id, node: final(rt).document.children_of(n)[0], seen: 0, attr: None }),
        final(rt).document.nodes@.len() == old(rt).document.nodes@.len() + 2,
        forall|m: int| 0 <= m < old(rt).document.nodes@.len() ==> #[trigger] final(rt).document.nodes@[m]
            == old(rt).document.nodes@[m],
        final(rt).document.body == old(rt).document.body,
{
    let el = rt.document.create_element(item_tag);
    proof {
        assert forall|b: int| 0 <= b < rt.bindings@.len() implies rt.binding_wf(#[trigger] rt.bindings@[b]) by {
            assert(old(rt).binding_wf(old(rt).bindings@[b]));
            assert(rt.document.nodes@[rt.bindings@[b].node.index as int] == old(rt).document.nodes@[rt.bindings@[b].node.index as int]);
        }
    }
    let t = rt.display(id);
    let ghost mid = *rt;
    rt.document.append_child(el, t);
    proof {
        assert forall|b: int| 0 <= b < rt.bindings@.len() implies rt.binding_wf(#[trigger] rt.bindings@[b]) by {
            assert(mid.binding_wf(mid.bindings@[b]));
            assert(rt.bindings@[b].node != el);
        }
        assert(rt.document.children_of(el) =~= seq![t]);
        let last = rt.bindings@.len() - 1;
        assert(rt.bindings@[last].node == rt.document.children_of(el)[0]);
    }
    el
}

/// The number of changes queued in the views from position `i` on.
pub open spec fn pending_from<S>(views: Seq<VecView<S>>, i: int) -> nat
    decreases views.len() - i,
{
    if i < 0 || i >= views.len() {
        0
    } else {
        views[i].queue@.len() + pending_from(views, i + 1)
    }
}

proof fn lemma_pending_split<S>(views: Seq<VecView<S>>, i: int)
    requires
        0 <= i < views.len(),
    ensures
        pending_from(views, i) == views[i].queue@.len() + pending_from(views, i + 1),
{
}

/// The count from `i` on depends only on the views from `i` on.
proof fn lemma_pending_same<S>(a: Seq<VecView<S>>, b: Seq<VecView<S>>, i: int)
    requires
        0 <= i,
        a.len() == b.len(),
        forall|w: int| i <= w < a.len() ==> #[trigger] a[w] == b[w],
    ensures
        pending_from(a, i) == pending_from(b, i),
    decreases a.len() - i,
{
    if i < a.len() {
        lemma_pending_same(a, b, i + 1);
    }
}

/// The views stay rendered when the runtime only changes texts and attributes
/// and keeps its bindings, as `put`, `update` and `Runtime::settle` do.
pub proof fn lemma_views_kept<S: StateTrait + Copy, V: Text>(sv: &StateVec<S>, rt1: &Runtime<V>, rt2: &Runtime<V>)
    requires
        rt1.wf(),
        sv.rendered_in(&rt1.document, rt1.count()),
        sv.shows_items(rt1),
        rt2.document.shape_kept(&rt1.document),
        rt2.keeps_bindings(rt1),
        rt1.count() <= rt2.count(),
    ensures
        sv.rendered_in(&rt2.document, rt2.count()),
        sv.shows_items(rt2),
{
    assert forall|v: int| 0 <= v < sv.views@.len() implies (#[trigger] sv.views@[v]).mirrored(&rt2.document) by {
        let e = sv.views@[v].enclose;
        assert(sv.views@[v].mirrored(&rt1.document));
        assert(rt2.document.node_shape_kept(&rt1.document, e.index as int));
    }
    assert forall|v: int, k: int|
        0 <= v < sv.views@.len() && 0 <= k < sv.views@[v].nodes@.len() implies item_node(
            rt2,
            #[trigger] sv.views@[v].nodes@[k],
            sv.views@[v].item_tag@,
            sv.views@[v].rendered@[k].spec_id(),
        ) by {
        let nd = sv.views@[v].nodes@[k];
        assert(item_node(rt1, nd, sv.views@[v].item_tag@, sv.views@[v].rendered@[k].spec_id()));
        assert(rt2.document.node_shape_kept(&rt1.document, nd.index as int));
        lemma_item_node_kept(rt1, rt2, nd, sv.views@[v].item_tag@, sv.views@[v].rendered@[k].spec_id());
    }
    assert forall|v: int, k: int|
        0 <= v < sv.views@.len() && 0 <= k < sv.views@[v].queue@.len()
            implies change_ids_below(#[trigger] sv.views@[v].queue@[k], rt2.count()) by {
        assert(change_ids_below(sv.views@[v].queue@[k], rt1.count()));
    }
}

impl<S: StateTrait + Copy> StateVec<S> {
    /// Every view tracks the items.
    pub open spec fn wf(&self) -> bool {
        forall|v: int| 0 <= v < self.views@.len() ==> (#[trigger] self.views@[v]).tracks(self.items@)
    }

    /// Every view of `self` is `old`'s with `c` sent to it.
    pub open spec fn sent(&self, old: &StateVec<S>, c: Change<S>) -> bool {
        &&& self.views@.len() == old.views@.len()
        &&& forall|v: int| 0 <= v < self.views@.len() ==> {
            &&& (#[trigger] self.views@[v]).queue@ == old.views@[v].queue@.push(c)
            &&& self.views@[v].rendered@ == old.views@[v].rendered@
            &&& self.views@[v].nodes@ == old.views@[v].nodes@
            &&& self.views@[v].enclose == old.views@[v].enclose
            &&& self.views@[v].item_tag@ == old.views@[v].item_tag@
        }
    }

    /// An empty sequence with no view.
    pub fn new() -> (r: StateVec<S>)
        ensures
            r.wf(),
            r.items@.len() == 0,
            r.views@.len() == 0,
    {
        StateVec { items: Vec::new(), views: Vec::new() }
    }

    /// An empty sequence with room for `n` items.
    pub fn with_capacity(n: usize) -> (r: StateVec<S>)
        ensures
            r.wf(),
            r.items@.len() == 0,
            r.views@.len() == 0,
    {
        StateVec { items: Vec::with_capacity(n), views: Vec::new() }
    }

    /// Sends `change` to every view.
    fn update(&mut self, change: Change<S>)
        requires
            forall|v: int| 0 <= v < old(self).views@.len() ==> {
                &&& replayable((#[trigger] old(self).views@[v]).rendered@, old(self).views@[v].queue@)
                &&& applicable(replay(old(self).views@[v].rendered@, old(self).views@[v].queue@), change)
                &&& apply_change(replay(old(self).views@[v].rendered@, old(self).views@[v].queue@), change)
                    == old(self).items@
                &&& old(self).views@[v].nodes@.len() == old(self).views@[v].rendered@.len()
            },
        ensures
            final(self).wf(),
            final(self).items@ == old(self).items@,
            final(self).sent(old(self), change),
    {
        let n = self.views.len();
        let mut i: usize = 0;
        while i < n
            invariant
                n == self.views@.len(),
                n == old(self).views@.len(),
                i <= n,
                self.items@ == old(self).items@,
                forall|v: int| 0 <= v < i ==> {
                    &&& (#[trigger] self.views@[v]).queue@ == old(self).views@[v].queue@.push(change)
                    &&& self.views@[v].rendered@ == old(self).views@[v].rendered@
                    &&& self.views@[v].nodes@ == old(self).views@[v].nodes@
                    &&& self.views@[v].enclose == old(self).views@[v].enclose
                    &&& self.views@[v].item_tag@ == old(self).views@[v].item_tag@
                },
                forall|v: int| i <= v < n ==> #[trigger] self.views@[v] == old(self).views@[v],
            decreases n - i,
        {
            self.views[i].queue.push(change);
            i = i + 1;
        }
        proof {
            assert forall|v: int| 0 <= v < self.views@.len() implies (#[trigger] self.views@[v]).tracks(self.items@) by {
                let o = old(self).views@[v];
                lemma_replay_push(o.rendered@, o.queue@, change);
            }
        }
    }

    /// Appends `value`, then tells every view.
    pub fn push(&mut self, value: S)
        requires
            old(self).wf(),
        ensures
            final(self).wf(),
            final(self).items@ == old(self).items@.push(value),
            final(self).sent(old(self), Change::Push(value)),
    {
        self.items.push(value);
        proof {
            assert forall|v: int| 0 <= v < old(self).views@.len() implies #[trigger] old(self).views@[v].tracks(old(self).items@) by {}
        }
        self.update(Change::Push(value));
    }

    /// Inserts `value` at position `index`, then tells every view.
    pub fn insert(&mut self, index: usize, value: S)
        requires
            old(self).wf(),
            index <= old(self).items@.len(),
        ensures
            final(self).wf(),
            final(self).items@ == old(self).items@.insert(index as int, value),
            final(self).sent(old(self), Change::Insert(index, value)),
    {
        self.items.insert(index, value);
        proof {
            assert forall|v: int| 0 <= v < old(self).views@.len() implies #[trigger] old(self).views@[v].tracks(old(self).items@) by {}
        }
        self.update(Change::Insert(index, value));
    }

    /// Removes the item at position `index`, then tells every view.
    pub fn remove(&mut self, index: usize)
        requires
            old(self).wf(),
            index < old(self).items@.len(),
        ensures
            final(self).wf(),
            final(self).items@ == old(self).items@.remove(index as int),
            final(self).sent(old(self), Change::Remove(index)),
    {
        self.items.remove(index);
        proof {
            assert forall|v: int| 0 <= v < old(self).views@.len() implies #[trigger] old(self).views@[v].tracks(old(self).items@) by {}
        }
        self.update(Change::Remove(index));
    }

    /// Removes the last item, if there is one, then tells every view.
    pub fn pop(&mut self)
        requires
            old(self).wf(),
        ensures
            final(self).wf(),
            final(self).items@ == if old(self).items@.len() > 0 {
                old(self).items@.drop_last()
            } else {
                old(self).items@
            },
            final(self).sent(old(self), Change::Pop),
    {
        self.items.pop();
        proof {
            assert forall|v: int| 0 <= v < old(self).views@.len() implies #[trigger] old(self).views@[v].tracks(old(self).items@) by {}
        }
        self.update(Change::Pop);
    }

    /// Whether every view's element mirrors its shadow list in `doc`, no two
    /// views share an element, and every container carried by a queued change is
    /// below `n`.
    pub open spec fn rendered_in(&self, doc: &Document, n: nat) -> bool {
        &&& forall|v: int| 0 <= v < self.views@.len() ==> (#[trigger] self.views@[v]).mirrored(doc)
        &&& forall|v: int, w: int|
            0 <= v < self.views@.len() && 0 <= w < self.views@.len() && v != w
                ==> #[trigger] self.views@[v].enclose != #[trigger] self.views@[w].enclose
        &&& forall|v: int, k: int|
            0 <= v < self.views@.len() && 0 <= k < self.views@[v].queue@.len()
                ==> change_ids_below(#[trigger] self.views@[v].queue@[k], n)
    }

    /// Node `k` of each view's shadow list renders the view's item `k`, and no
    /// shadow node is the element of a view.
    pub open spec fn shows_items<V: Text>(&self, rt: &Runtime<V>) -> bool {
        &&& forall|v: int, k: int|
            0 <= v < self.views@.len() && 0 <= k < self.views@[v].nodes@.len() ==> item_node(
                rt,
                #[trigger] self.views@[v].nodes@[k],
                self.views@[v].item_tag@,
                self.views@[v].rendered@[k].spec_id(),
            )
        &&& forall|v: int, w: int, k: int|
            0 <= v < self.views@.len() && 0 <= w < self.views@.len() && 0 <= k < self.views@[v].nodes@.len()
                ==> #[trigger] self.views@[v].nodes@[k] != #[trigger] self.views@[w].enclose
    }

    /// One turn of view `v`'s task: it takes the oldest change sent to it and
    /// applies it to its shadow list and to its element. The change always refers
    /// to positions that exist in what the view has rendered.
    pub fn deliver<V: Text>(&mut self, v: usize, rt: &mut Runtime<V>)
        requires
            old(self).wf(),
            v < old(self).views@.len(),
            old(self).views@[v as int].queue@.len() > 0,
            old(rt).wf(),
            old(self).rendered_in(&old(rt).document, old(rt).count()),
            old(self).shows_items(old(rt)),
            old(rt).document.nodes@.len() + 2 < usize::MAX,
        ensures
            final(self).wf(),
            final(rt).wf(),
            final(self).rendered_in(&final(rt).document, final(rt).count()),
            final(self).shows_items(final(rt)),
            final(rt).keeps_bindings(old(rt)),
            forall|m: int| 0 <= m < old(rt).document.nodes@.len() && m != old(self).views@[v as int].enclose.index
                ==> #[trigger] final(rt).document.nodes@[m] == old(rt).document.nodes@[m],
            exists|n: Node| n.index >= old(rt).document.nodes@.len() && #[trigger] nodes_after(
                old(self).views@[v as int].nodes@,
                old(self).views@[v as int].queue@[0],
                n,
            ) == final(self).views@[v as int].nodes@,
            final(self).items@ == old(self).items@,
            final(self).views@.len() == old(self).views@.len(),
            forall|w: int| 0 <= w < final(self).views@.len() && w != v ==> #[trigger] final(self).views@[w] == old(self).views@[w],
            applicable(old(self).views@[v as int].rendered@, old(self).views@[v as int].queue@[0]),
            final(self).views@[v as int].rendered@ == apply_change(
                old(self).views@[v as int].rendered@,
                old(self).views@[v as int].queue@[0],
            ),
            final(self).views@[v as int].queue@ == old(self).views@[v as int].queue@.drop_first(),
            final(self).views@[v as int].enclose == old(self).views@[v as int].enclose,
            final(rt).values@ == old(rt).values@,
            final(rt).channels@ == old(rt).channels@,
            final(rt).document.nodes@.len() <= old(rt).document.nodes@.len() + 2,
            old(rt).document.nodes@.len() <= final(rt).document.nodes@.len(),
    {
        let ghost o = old(self).views@[v as int];
        proof {
            assert(o.tracks(old(self).items@));
            lemma_replay_first(o.rendered@, o.queue@);
            assert(change_ids_below(o.queue@[0], rt.count()));
        }
        let change = self.views[v].queue.remove(0);
        let enclose = self.views[v].enclose;
        let ghost doc0 = rt.document;
        let ghost mut newn = Node { index: doc0.nodes@.len() as usize };
        let ghost mut rt1 = *rt;
        match change {
            Change::Push(x) => {
                let n = render_item(rt, self.views[v].item_tag.as_str(), x.id());
                proof {
                    newn = n;
                    rt1 = *rt;
                }
                rt.document.append_child(enclose, n);
                self.views[v].nodes.push(n);
                self.views[v].rendered.push(x);
            },
            Change::Insert(i, x) => {
                if i <= self.views[v].rendered.len() {
                    let n = render_item(rt, self.views[v].item_tag.as_str(), x.id());
                    proof {
                        newn = n;
                        rt1 = *rt;
                    }
                    rt.document.insert_child(enclose, i, n);
                    self.views[v].nodes.insert(i, n);
                    self.views[v].rendered.insert(i, x);
                }
            },
            Change::Remove(i) => {
                if i < self.views[v].rendered.len() {
                    rt.document.remove_child(enclose, i);
                    self.views[v].nodes.remove(i);
                    self.views[v].rendered.remove(i);
                }
            },
            Change::Pop => {
                let len = self.views[v].rendered.len();
                if len > 0 {
                    rt.document.remove_child(enclose, len - 1);
                    self.views[v].nodes.pop();
                    self.views[v].rendered.pop();
                }
            },
        }
        proof {
            let nv = self.views@[v as int];
            assert(nv.queue@ =~= o.queue@.drop_first());
            assert(nv.tracks(self.items@));
            assert forall|w: int| 0 <= w < self.views@.len() implies (#[trigger] self.views@[w]).tracks(self.items@) by {
                if w != v {
                    assert(old(self).views@[w].tracks(old(self).items@));
                }
            }
            assert forall|w: int| 0 <= w < self.views@.len() implies (#[trigger] self.views@[w]).mirrored(&rt.document) by {
                let vw = self.views@[w];
                assert(old(self).views@[w].mirrored(&doc0));
                if w != v {
                    assert(vw.enclose != enclose);
                    assert(rt.document.nodes@[vw.enclose.index as int] == doc0.nodes@[vw.enclose.index as int]);
                } else {
                    assert(rt.document.children_of(enclose) =~= nv.nodes@);
                    assert forall|a: int, b: int|
                        0 <= a < nv.nodes@.len() && 0 <= b < nv.nodes@.len() && a != b implies #[trigger] nv.nodes@[a]
                            != #[trigger] nv.nodes@[b] by {
                        assert(forall|c: int| 0 <= c < o.nodes@.len() ==> doc0.contains(#[trigger] o.nodes@[c])) by {
                            assert(doc0.wf());
                            assert(doc0.node_wf(doc0.nodes@[enclose.index as int]));
                        }
                    }
                }
            }
            assert forall|w: int, k: int|
                0 <= w < self.views@.len() && 0 <= k < self.views@[w].queue@.len()
                    implies change_ids_below(#[trigger] self.views@[w].queue@[k], rt.count()) by {
                if w == v {
                    assert(self.views@[w].queue@[k] == o.queue@[k + 1]);
                }
            }
            assert(nodes_after(o.nodes@, o.queue@[0], newn) =~= nv.nodes@);
            assert forall|m: int| 0 <= m < doc0.nodes@.len() && m != enclose.index
                implies #[trigger] rt.document.nodes@[m] == doc0.nodes@[m] by {}
            assert(rt.keeps_bindings(old(rt)));
            // every shadow node made before this turn is untouched
            assert forall|w: int, k: int|
                0 <= w < old(self).views@.len() && 0 <= k < old(self).views@[w].nodes@.len()
                    implies item_node(rt, #[trigger] old(self).views@[w].nodes@[k], old(self).views@[w].item_tag@,
                        old(self).views@[w].rendered@[k].spec_id()) by {
                let nd = old(self).views@[w].nodes@[k];
                assert(item_node(old(rt), nd, old(self).views@[w].item_tag@, old(self).views@[w].rendered@[k].spec_id()));
                assert(old(self).views@[w].mirrored(&doc0));
                assert(doc0.node_wf(doc0.nodes@[old(self).views@[w].enclose.index as int]));
                assert(doc0.children_of(old(self).views@[w].enclose)[k] == nd);
                assert(nd != enclose);
                assert(rt.document.nodes@[nd.index as int] == doc0.nodes@[nd.index as int]);
                lemma_item_node_kept(old(rt), rt, nd, old(self).views@[w].item_tag@, old(self).views@[w].rendered@[k].spec_id());
            }
            let is_new = match o.queue@[0] {
                Change::Push(_) => true,
                Change::Insert(i, _) => i <= o.rendered@.len(),
                _ => false,
            };
            if is_new {
                let x = match o.queue@[0] {
                    Change::Push(x) => x,
                    Change::Insert(_, x) => x,
                    _ => arbitrary(),
                };
                assert(item_node(&rt1, newn, o.item_tag@, x.spec_id()));
                assert(rt.document.nodes@[newn.index as int] == rt1.document.nodes@[newn.index as int]);
                assert(rt.keeps_bindings(&rt1));
                lemma_item_node_kept(&rt1, rt, newn, o.item_tag@, x.spec_id());
            }
            assert forall|w: int, k: int|
                0 <= w < self.views@.len() && 0 <= k < self.views@[w].nodes@.len() implies item_node(
                    rt,
                    #[trigger] self.views@[w].nodes@[k],
                    self.views@[w].item_tag@,
                    self.views@[w].rendered@[k].spec_id(),
                ) by {
                if w != v {
                    assert(self.views@[w] == old(self).views@[w]);
                } else {
                    match o.queue@[0] {
                        Change::Push(x) => {
                            if k < o.nodes@.len() {
                                assert(nv.nodes@[k] == o.nodes@[k]);
                                assert(nv.rendered@[k] == o.rendered@[k]);
                            }
                        },
                        Change::Insert(i, x) => {
                            if i <= o.rendered@.len() {
                                if k < i {
                                    assert(nv.nodes@[k] == o.nodes@[k]);
                                    assert(nv.rendered@[k] == o.rendered@[k]);
                                } else if k > i {
                                    assert(nv.nodes@[k] == o.nodes@[k - 1]);
                                    assert(nv.rendered@[k] == o.rendered@[k - 1]);
                                }
                            } else {
                                assert(nv.nodes@[k] == o.nodes@[k]);
                            }
                        },
                        Change::Remove(i) => {
                            if i < o.rendered@.len() {
                                if k < i {
                                    assert(nv.nodes@[k] == o.nodes@[k]);
                                    assert(nv.rendered@[k] == o.rendered@[k]);
                                } else {
                                    assert(nv.nodes@[k] == o.nodes@[k + 1]);
                                    assert(nv.rendered@[k] == o.rendered@[k + 1]);
                                }
                            } else {
                                assert(nv.nodes@[k] == o.nodes@[k]);
                            }
                        },
                        Change::Pop => {
                            assert(nv.nodes@[k] == o.nodes@[k]);
                            assert(nv.rendered@[k] == o.rendered@[k]);
                        },
                    }
                }
            }
            assert forall|a: int, w: int, k: int|
                0 <= a < self.views@.len() && 0 <= w < self.views@.len() && 0 <= k < self.views@[a].nodes@.len()
                    implies #[trigger] self.views@[a].nodes@[k] != #[trigger] self.views@[w].enclose by {
                assert(self.views@[w].enclose == old(self).views@[w].enclose);
                assert(old(self).views@[w].mirrored(&doc0));
                let nd = self.views@[a].nodes@[k];
                if a != v {
                    assert(self.views@[a] == old(self).views@[a]);
                } else if nd == newn && is_new {
                    assert(doc0.contains(old(self).views@[w].enclose));
                } else {
                    match o.queue@[0] {
                        Change::Push(x) => {
                            assert(k < o.nodes@.len());
                            assert(nd == o.nodes@[k]);
                        },
                        Change::Insert(i, x) => {
                            if i <= o.rendered@.len() {
                                if k < i {
                                    assert(nd == o.nodes@[k]);
                                } else if k > i {
                                    assert(nd == o.nodes@[k - 1]);
                                }
                            } else {
                                assert(nd == o.nodes@[k]);
                            }
                        },
                        Change::Remove(i) => {
                            if i < o.rendered@.len() {
                                if k < i {
                                    assert(nd == o.nodes@[k]);
                                } else {
                                    assert(nd == o.nodes@[k + 1]);
                                }
                            } else {
                                assert(nd == o.nodes@[k]);
                            }
                        },
                        Change::Pop => {
                            assert(nd == o.nodes@[k]);
                        },
                    }
                }
            }
        }
    }

    /// Runs view `v`'s task until it has applied every change sent to it: it then
    /// renders exactly the items, in order.
    pub fn drain<V: Text>(&mut self, v: usize, rt: &mut Runtime<V>)
        requires
            old(self).wf(),
            v < old(self).views@.len(),
            old(rt).wf(),
            old(self).rendered_in(&old(rt).document, old(rt).count()),
            old(self).shows_items(old(rt)),
            old(rt).document.nodes@.len() + 2 * old(self).views@[v as int].queue@.len() + 2 < usize::MAX,
        ensures
            final(self).wf(),
            final(rt).wf(),
            final(self).rendered_in(&final(rt).document, final(rt).count()),
            final(self).shows_items(final(rt)),
            final(rt).keeps_bindings(old(rt)),
            forall|m: int| 0 <= m < old(rt).document.nodes@.len() && m != old(self).views@[v as int].enclose.index
                ==> #[trigger] final(rt).document.nodes@[m] == old(rt).document.nodes@[m],
            final(self).items@ == old(self).items@,
            final(self).views@.len() == old(self).views@.len(),
            forall|w: int| 0 <= w < final(self).views@.len() && w != v ==> #[trigger] final(self).views@[w] == old(self).views@[w],
            final(self).views@[v as int].queue@.len() == 0,
            final(self).views@[v as int].rendered@ == final(self).items@,
            final(self).views@[v as int].enclose == old(self).views@[v as int].enclose,
            final(rt).values@ == old(rt).values@,
            final(rt).channels@ == old(rt).channels@,
            final(rt).document.nodes@.len() <= old(rt).document.nodes@.len() + 2 * old(self).views@[v as int].queue@.len(),
            old(rt).document.nodes@.len() <= final(rt).document.nodes@.len(),
    {
        while self.views[v].queue.len() > 0
            invariant
                self.wf(),
                rt.wf(),
                v < self.views@.len(),
                self.rendered_in(&rt.document, rt.count()),
                self.shows_items(rt),
                rt.keeps_bindings(old(rt)),
                old(rt).document.nodes@.len() <= rt.document.nodes@.len(),
                forall|m: int| 0 <= m < old(rt).document.nodes@.len() && m != old(self).views@[v as int].enclose.index
                    ==> #[trigger] rt.document.nodes@[m] == old(rt).document.nodes@[m],
                self.items@ == old(self).items@,
                self.views@.len() == old(self).views@.len(),
                forall|w: int| 0 <= w < self.views@.len() && w != v ==> #[trigger] self.views@[w] == old(self).views@[w],
                self.views@[v as int].enclose == old(self).views@[v as int].enclose,
                rt.values@ == old(rt).values@,
                rt.channels@ == old(rt).channels@,
                rt.document.nodes@.len() + 2 * self.views@[v as int].queue@.len()
                    <= old(rt).document.nodes@.len() + 2 * old(self).views@[v as int].queue@.len(),
                old(rt).document.nodes@.len() + 2 * old(self).views@[v as int].queue@.len() + 2 < usize::MAX,
            decreases self.views@[v as int].queue@.len(),
        {
            let ghost r0 = *rt;
            self.deliver(v, rt);
            proof {
                assert forall|b: int| 0 <= b < old(rt).bindings@.len() implies {
                    &&& (#[trigger] rt.bindings@[b]).source == old(rt).bindings@[b].source
                    &&& rt.bindings@[b].node == old(rt).bindings@[b].node
                    &&& rt.bindings@[b].attr == old(rt).bindings@[b].attr
                } by {
                    assert(r0.bindings@[b].source == old(rt).bindings@[b].source);
                }
                assert forall|m: int| 0 <= m < old(rt).document.nodes@.len() && m != old(self).views@[v as int].enclose.index
                    implies #[trigger] rt.document.nodes@[m] == old(rt).document.nodes@[m] by {
                    assert(r0.document.nodes@[m] == old(rt).document.nodes@[m]);
                }
            }
        }
        proof {
            assert(self.views@[v as int].tracks(self.items@));
        }
    }

    /// Runs every view's task until it has caught up: every view then renders
    /// exactly the items, in order.
    pub fn settle_views<V: Text>(&mut self, rt: &mut Runtime<V>)
        requires
            old(self).wf(),
            old(rt).wf(),
            old(self).rendered_in(&old(rt).document, old(rt).count()),
            old(self).shows_items(old(rt)),
            old(rt).document.nodes@.len() + 2 * old(self).pending() + 2 < usize::MAX,
        ensures
            final(self).wf(),
            final(rt).wf(),
            final(self).rendered_in(&final(rt).document, final(rt).count()),
            final(self).shows_items(final(rt)),
            final(rt).keeps_bindings(old(rt)),
            forall|m: int| 0 <= m < old(rt).document.nodes@.len()
                && (forall|w: int| 0 <= w < old(self).views@.len() ==> (#[trigger] old(self).views@[w]).enclose.index != m)
                ==> #[trigger] final(rt).document.nodes@[m] == old(rt).document.nodes@[m],
            final(self).items@ == old(self).items@,
            final(self).views@.len() == old(self).views@.len(),
            forall|w: int| 0 <= w < final(self).views@.len() ==> (#[trigger] final(self).views@[w]).queue@.len() == 0
                && final(self).views@[w].rendered@ == final(self).items@
                && final(self).views@[w].enclose == old(self).views@[w].enclose,
            final(rt).values@ == old(rt).values@,
            final(rt).channels@ == old(rt).channels@,
    {
        let n = self.views.len();
        let mut i: usize = 0;
        while i < n
            invariant
                self.wf(),
                rt.wf(),
                n == self.views@.len(),
                i <= n,
                self.rendered_in(&rt.document, rt.count()),
                self.shows_items(rt),
                rt.keeps_bindings(old(rt)),
                old(rt).document.nodes@.len() <= rt.document.nodes@.len(),
                forall|m: int| 0 <= m < old(rt).document.nodes@.len()
                    && (forall|w: int| 0 <= w < old(self).views@.len() ==> (#[trigger] old(self).views@[w]).enclose.index != m)
                    ==> #[trigger] rt.document.nodes@[m] == old(rt).document.nodes@[m],
                self.items@ == old(self).items@,
                self.views@.len() == old(self).views@.len(),
                forall|w: int| 0 <= w < i ==> (#[trigger] self.views@[w]).queue@.len() == 0
                    && self.views@[w].rendered@ == self.items@
                    && self.views@[w].enclose == old(self).views@[w].enclose,
                forall|w: int| i <= w < n ==> #[trigger] self.views@[w] == old(self).views@[w],
                rt.values@ == old(rt).values@,
                rt.channels@ == old(rt).channels@,
                rt.document.nodes@.len() + 2 * pending_from(self.views@, i as int) <= old(rt).document.nodes@.len()
                    + 2 * old(self).pending(),
                old(rt).document.nodes@.len() + 2 * old(self).pending() + 2 < usize::MAX,
            decreases n - i,
        {
            let ghost before = *self;
            let ghost r0 = *rt;
            proof {
                lemma_pending_split(self.views@, i as int);
            }
            self.drain(i, rt);
            proof {
                assert forall|b: int| 0 <= b < old(rt).bindings@.len() implies {
                    &&& (#[trigger] rt.bindings@[b]).source == old(rt).bindings@[b].source
                    &&& rt.bindings@[b].node == old(rt).bindings@[b].node
                    &&& rt.bindings@[b].attr == old(rt).bindings@[b].attr
                } by {
                    assert(r0.bindings@[b].source == old(rt).bindings@[b].source);
                }
                assert forall|m: int| 0 <= m < old(rt).document.nodes@.len()
                    && (forall|w: int| 0 <= w < old(self).views@.len() ==> (#[trigger] old(self).views@[w]).enclose.index != m)
                    implies #[trigger] rt.document.nodes@[m] == old(rt).document.nodes@[m] by {
                    assert(old(self).views@[i as int].enclose.index != m);
                    assert(before.views@[i as int].enclose == old(self).views@[i as int].enclose);
                    assert(r0.document.nodes@[m] == old(rt).document.nodes@[m]);
                }
                lemma_pending_same(self.views@, before.views@, i as int + 1);
            }
            i = i + 1;
        }
    }

    /// The number of changes queued over all views.
    pub open spec fn pending(&self) -> nat {
        pending_from(self.views@, 0)
    }

    /// Renders every item into `enclose`, each as an element with tag
    /// `item_tag` that displays the item's container, and registers the
    /// rendering as a view that follows every later change. `enclose` must be an
    /// element with no children that no other view uses.
    pub fn view<V: Text, U: HtmlElement>(&mut self, rt: &mut Runtime<V>, enclose: Tag<U>, item_tag: &str) -> (r: Tag<U>)
        requires
            old(self).wf(),
            old(rt).wf(),
            old(self).rendered_in(&old(rt).document, old(rt).count()),
            old(self).shows_items(old(rt)),
            old(rt).document.is_element(enclose.node),
            old(rt).document.children_of(enclose.node).len() == 0,
            forall|w: int| 0 <= w < old(self).views@.len() ==> (#[trigger] old(self).views@[w]).enclose != enclose.node,
            forall|k: int| 0 <= k < old(self).items@.len() ==> (#[trigger] old(self).items@[k]).spec_id() < old(rt).count(),
            old(rt).document.nodes@.len() + 2 * old(self).items@.len() + 2 < usize::MAX,
        ensures
            r.node == enclose.node,
            final(self).wf(),
            final(rt).wf(),
            final(self).rendered_in(&final(rt).document, final(rt).count()),
            final(self).shows_items(final(rt)),
            final(self).items@ == old(self).items@,
            final(self).views@.len() == old(self).views@.len() + 1,
            forall|w: int| 0 <= w < old(self).views@.len() ==> #[trigger] final(self).views@[w] == old(self).views@[w],
            final(self).views@.last().enclose == enclose.node,
            final(self).views@.last().rendered@ == old(self).items@,
            final(self).views@.last().queue@.len() == 0,
            final(rt).document.children_of(enclose.node) == final(self).views@.last().nodes@,
            forall|k: int| 0 <= k < old(self).items@.len() ==> item_node(
                final(rt),
                #[trigger] final(self).views@.last().nodes@[k],
                item_tag@,
                old(self).items@[k].spec_id(),
            ),
            final(rt).keeps_bindings(old(rt)),
            forall|m: int| 0 <= m < old(rt).document.nodes@.len() && m != enclose.node.index
                ==> #[trigger] final(rt).document.nodes@[m] == old(rt).document.nodes@[m],
            final(rt).values@ == old(rt).values@,
            final(rt).channels@ == old(rt).channels@,
    {
        let node = enclose.node;
        let mut rendered: Vec<S> = Vec::new();
        let mut nodes: Vec<Node> = Vec::new();
        let n = self.items.len();
        let mut i: usize = 0;
        while i < n
            invariant
                n == self.items@.len(),
                i <= n,
                *self == *old(self),
                rt.wf(),
                rt.count() == old(rt).count(),
                rt.values@ == old(rt).values@,
                rt.channels@ == old(rt).channels@,
                rt.document.nodes@.len() == old(rt).document.nodes@.len() + 2 * i,
                forall|m: int| 0 <= m < old(rt).document.nodes@.len() && m != node.index ==> #[trigger] rt.document.nodes@[m]
                    == old(rt).document.nodes@[m],
                rt.document.is_element(node),
                rt.document.children_of(node) == nodes@,
                rendered@ == self.items@.subrange(0, i as int),
                nodes@.len() == i,
                forall|a: int| 0 <= a < nodes@.len() ==> old(rt).document.nodes@.len() <= (#[trigger] nodes@[a]).index
                    < rt.document.nodes@.len(),
                forall|a: int, b: int|
                    0 <= a < nodes@.len() && 0 <= b < nodes@.len() && a != b ==> #[trigger] nodes@[a]
                        != #[trigger] nodes@[b],
                forall|k: int| 0 <= k < self.items@.len() ==> (#[trigger] self.items@[k]).spec_id() < rt.count(),
                old(rt).document.nodes@.len() + 2 * n + 2 < usize::MAX,
                rt.keeps_bindings(old(rt)),
                forall|a: int| 0 <= a < nodes@.len() ==> item_node(
                    rt,
                    #[trigger] nodes@[a],
                    item_tag@,
                    self.items@[a].spec_id(),
                ),
            decreases n - i,
        {
            let x = self.items[i];
            let ghost nodes0 = nodes@;
            let ghost r0 = *rt;
            let m = render_item(rt, item_tag, x.id());
            let ghost r1 = *rt;
            rt.document.append_child(node, m);
            nodes.push(m);
            rendered.push(x);
            proof {
                assert(rt.keeps_bindings(&r1));
                assert(m != node);
                lemma_item_node_kept(&r1, rt, m, item_tag@, x.spec_id());
                assert(rt.keeps_bindings(&r0));
                assert forall|a: int| 0 <= a < nodes@.len() implies item_node(
                    rt,
                    #[trigger] nodes@[a],
                    item_tag@,
                    self.items@[a].spec_id(),
                ) by {
                    if a < nodes0.len() {
                        let nd = nodes0[a];
                        assert(nodes@[a] == nd);
                        assert(item_node(&r0, nd, item_tag@, self.items@[a].spec_id()));
                        assert(nd != node);
                        assert(rt.document.nodes@[nd.index as int] == r0.document.nodes@[nd.index as int]);
                        lemma_item_node_kept(&r0, rt, nd, item_tag@, self.items@[a].spec_id());
                    }
                }
                assert forall|b: int| 0 <= b < old(rt).bindings@.len() implies {
                    &&& (#[trigger] rt.bindings@[b]).source == old(rt).bindings@[b].source
                    &&& rt.bindings@[b].node == old(rt).bindings@[b].node
                    &&& rt.bindings@[b].attr == old(rt).bindings@[b].attr
                } by {
                    assert(r0.bindings@[b].source == old(rt).bindings@[b].source);
                }
                assert(rendered@ =~= self.items@.subrange(0, i as int + 1));
                assert forall|a: int, b: int|
                    0 <= a < nodes@.len() && 0 <= b < nodes@.len() && a != b implies #[trigger] nodes@[a]
                        != #[trigger] nodes@[b] by {
                    if a < nodes0.len() && b < nodes0.len() {
                        assert(nodes@[a] == nodes0[a] && nodes@[b] == nodes0[b]);
                    }
                }
            }
            i = i + 1;
        }
        proof {
            assert(rendered@ =~= self.items@);
        }
        let ghost before = *self;
        self.views.push(VecView { enclose: node, item_tag: String::from_str(item_tag), rendered, nodes, queue: Vec::new() });
        proof {
            assert(self.views@.last().queue@ =~= Seq::<Change<S>>::empty());
            assert forall|w: int| 0 <= w < self.views@.len() implies (#[trigger] self.views@[w]).tracks(self.items@) by {
                if w < before.views@.len() {
                    assert(before.views@[w].tracks(before.items@));
                }
            }
            assert forall|w: int| 0 <= w < self.views@.len() implies (#[trigger] self.views@[w]).mirrored(&rt.document) by {
                if w < before.views@.len() {
                    let e = before.views@[w].enclose;
                    assert(old(self).views@[w].mirrored(&old(rt).document));
                    assert(e != node);
                    assert(rt.document.nodes@[e.index as int] == old(rt).document.nodes@[e.index as int]);
                    assert forall|c: int| 0 <= c < before.views@[w].nodes@.len() implies rt.document.contains(#[trigger] before.views@[w].nodes@[c]) by {
                        assert(old(rt).document.node_wf(old(rt).document.nodes@[e.index as int]));
                    }
                }
            }
            assert forall|v: int, k: int|
                0 <= v < self.views@.len() && 0 <= k < self.views@[v].queue@.len()
                    implies change_ids_below(#[trigger] self.views@[v].queue@[k], rt.count()) by {
                if v < before.views@.len() {
                    assert(self.views@[v] == before.views@[v]);
                }
            }
            let last = self.views@.len() - 1;
            assert(self.views@[last] == self.views@.last());
            assert forall|v: int, k: int|
                0 <= v < self.views@.len() && 0 <= k < self.views@[v].nodes@.len() implies item_node(
                    rt,
                    #[trigger] self.views@[v].nodes@[k],
                    self.views@[v].item_tag@,
                    self.views@[v].rendered@[k].spec_id(),
                ) by {
                if v < before.views@.len() {
                    let ov = old(self).views@[v];
                    let nd = ov.nodes@[k];
                    assert(self.views@[v] == ov);
                    assert(item_node(old(rt), nd, ov.item_tag@, ov.rendered@[k].spec_id()));
                    assert(ov.mirrored(&old(rt).document));
                    assert(old(rt).document.node_wf(old(rt).document.nodes@[ov.enclose.index as int]));
                    assert(old(rt).document.children_of(ov.enclose)[k] == nd);
                    assert(nd != node);
                    lemma_item_node_kept(old(rt), rt, nd, ov.item_tag@, ov.rendered@[k].spec_id());
                } else {
                    assert(self.views@[v].nodes@[k] == nodes@[k]);
                    assert(self.views@[v].rendered@[k] == self.items@[k]);
                    assert(self.views@[v].item_tag@ == item_tag@);
                }
            }
            assert forall|v: int, w: int, k: int|
                0 <= v < self.views@.len() && 0 <= w < self.views@.len() && 0 <= k < self.views@[v].nodes@.len()
                    implies #[trigger] self.views@[v].nodes@[k] != #[trigger] self.views@[w].enclose by {
                let nd = self.views@[v].nodes@[k];
                if v < before.views@.len() {
                    let ov = old(self).views@[v];
                    assert(self.views@[v] == ov);
                    assert(item_node(old(rt), nd, ov.item_tag@, ov.rendered@[k].spec_id()));
                    if w < before.views@.len() {
                        assert(self.views@[w] == old(self).views@[w]);
                    }
                } else {
                    assert(nd == nodes@[k]);
                    if w < before.views@.len() {
                        assert(old(self).views@[w].mirrored(&old(rt).document));
                        assert(self.views@[w] == old(self).views@[w]);
                    }
                }
            }
        }
        Tag { node, elem_type: core::marker::PhantomData }
    }

    /// The item at position `index`, if there is one.
    pub fn get(&self, index: usize) -> (r: Option<S>)
        ensures
            r == if index < self.items@.len() { Some(self.items@[index as int]) } else { None::<S> },
    {
        if index < self.items.len() {
            Some(self.items[index])
        } else {
            None
        }
    }

    /// The number of items.
    pub fn len(&self) -> (r: usize)
        ensures
            r == self.items@.len(),
    {
        self.items.len()
    }

    /// Whether there is no item.
    pub fn is_empty(&self) -> (r: bool)
        ensures
            r == (self.items@.len() == 0),
    {
        self.items.len() == 0
    }

    /// The first position of container `elem` among the items, by identity.
    fn position(&self, elem: &S) -> (r: Option<usize>)
        ensures
            match r {
                Some(i) => i < self.items@.len() && self.items@[i as int].spec_id() == elem.spec_id()
                    && forall|j: int| 0 <= j < i ==> (#[trigger] self.items@[j]).spec_id() != elem.spec_id(),
                None => forall|j: int| 0 <= j < self.items@.len() ==> (#[trigger] self.items@[j]).spec_id() != elem.spec_id(),
            },
    {
        let id = elem.id();
        let mut i: usize = 0;
        while i < self.items.len()
            invariant
                i <= self.items@.len(),
                id == elem.spec_id(),
                forall|j: int| 0 <= j < i ==> (#[trigger] self.items@[j]).spec_id() != id,
            decreases self.items@.len() - i,
        {
            if self.items[i].id() == id {
                return Some(i);
            }
            i = i + 1;
        }
        None
    }

    /// Removes the first item that is container `elem` (by identity), then tells
    /// every view. Fails, changing nothing, when no item is that container.
    pub fn remove_elem(&mut self, elem: S) -> (r: Result<(), StateVecError>)
        requires
            old(self).wf(),
        ensures
            final(self).wf(),
            r is Ok <==> exists|j: int| 0 <= j < old(self).items@.len() && (#[trigger] old(self).items@[j]).spec_id() == elem.spec_id(),
            r is Err ==> r == Err::<(), StateVecError>(StateVecError::NotFound) && *final(self) == *old(self),
            r is Ok ==> exists|i: int| 0 <= i < old(self).items@.len()
                && old(self).items@[i].spec_id() == elem.spec_id()
                && (forall|j: int| 0 <= j < i ==> (#[trigger] old(self).items@[j]).spec_id() != elem.spec_id())
                && final(self).items@ == old(self).items@.remove(i)
                && final(self).sent(old(self), Change::Remove(i as usize)),
    {
        match self.position(&elem) {
            Some(i) => {
                self.remove(i);
                Ok(())
            },
            None => Err(StateVecError::NotFound),
        }
    }
}

impl StateVec<StateAtomic> {
    /// Makes a `StateAtomic` holding `value` and appends it.
    pub fn push_atomic<V: Copy + Text>(&mut self, rt: &mut Runtime<V>, value: V) -> (r: StateAtomic)
        requires
            old(self).wf(),
            old(rt).wf(),
            old(rt).count() < usize::MAX,
            forall|k: int| 0 <= k < old(self).items@.len() ==> (#[trigger] old(self).items@[k]).spec_id() < old(rt).count(),
        ensures
            final(self).wf(),
            final(rt).wf(),
            r.id == old(rt).count(),
            forall|k: int| 0 <= k < old(self).items@.len() ==> #[trigger] old(self).items@[k] != r,
            final(rt).values@ == old(rt).values@.push(value),
            final(self).items@ == old(self).items@.push(r),
            final(self).sent(old(self), Change::Push(r)),
    {
        let x = StateAtomic::new(rt, value);
        self.push(x);
        x
    }

    /// Makes a `StateAtomic` holding `value` and inserts it at `index`.
    pub fn insert_atomic<V: Copy + Text>(&mut self, rt: &mut Runtime<V>, index: usize, value: V) -> (r: StateAtomic)
        requires
            old(self).wf(),
            old(rt).wf(),
            old(rt).count() < usize::MAX,
            forall|k: int| 0 <= k < old(self).items@.len() ==> (#[trigger] old(self).items@[k]).spec_id() < old(rt).count(),
            index <= old(self).items@.len(),
        ensures
            final(self).wf(),
            final(rt).wf(),
            r.id == old(rt).count(),
            forall|k: int| 0 <= k < old(self).items@.len() ==> #[trigger] old(self).items@[k] != r,
            final(rt).values@ == old(rt).values@.push(value),
            final(self).items@ == old(self).items@.insert(index as int, r),
            final(self).sent(old(self), Change::Insert(index, r)),
    {
        let x = StateAtomic::new(rt, value);
        self.insert(index, x);
        x
    }
}

impl StateVec<StateMutex> {
    /// Makes a `StateMutex` holding `value` and appends it.
    pub fn push_mutex<V: Clone + Text>(&mut self, rt: &mut Runtime<V>, value: V) -> (r: StateMutex)
        requires
            old(self).wf(),
            old(rt).wf(),
            old(rt).count() < usize::MAX,
            forall|k: int| 0 <= k < old(self).items@.len() ==> (#[trigger] old(self).items@[k]).spec_id() < old(rt).count(),
        ensures
            final(self).wf(),
            final(rt).wf(),
            r.id == old(rt).count(),
            forall|k: int| 0 <= k < old(self).items@.len() ==> #[trigger] old(self).items@[k] != r,
            final(rt).values@ == old(rt).values@.push(value),
            final(self).items@ == old(self).items@.push(r),
            final(self).sent(old(self), Change::Push(r)),
    {
        let x = StateMutex::new(rt, value);
        self.push(x);
        x
    }

    /// Makes a `StateMutex` holding `value` and inserts it at `index`.
    pub fn insert_mutex<V: Clone + Text>(&mut self, rt: &mut Runtime<V>, index: usize, value: V) -> (r: StateMutex)
        requires
            old(self).wf(),
            old(rt).wf(),
            old(rt).count() < usize::MAX,
            forall|k: int| 0 <= k < old(self).items@.len() ==> (#[trigger] old(self).items@[k]).spec_id() < old(rt).count(),
            index <= old(self).items@.len(),
        ensures
            final(self).wf(),
            final(rt).wf(),
            r.id == old(rt).count(),
            forall|k: int| 0 <= k < old(self).items@.len() ==> #[trigger] old(self).items@[k] != r,
            final(rt).values@ == old(rt).values@.push(value),
            final(self).items@ == old(self).items@.insert(index as int, r),
            final(self).sent(old(self), Change::Insert(index, r)),
    {
        let x = StateMutex::new(rt, value);
        self.insert(index, x);
        x
    }
}

} // verus!
