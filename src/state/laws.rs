use vstd::prelude::*;

use super::Runtime;
use super::StateTrait;
use super::derived::Derivation;
use super::state_vec::{applicable, item_node, replay, replayable, StateVec};
use crate::text::Text;

verus! {

/// Convergence: once every binding has taken its turn after the last put, every
/// display shows the text of its container's current value, however many puts
/// came before.
pub proof fn lemma_converged<V: Text>(rt: &Runtime<V>)
    requires
        rt.wf(),
        forall|b: int| 0 <= b < rt.bindings@.len() ==> #[trigger] rt.caught_up(b),
    ensures
        forall|b: int| 0 <= b < rt.bindings@.len() ==> #[trigger] rt.shown(b) == Some(rt.text_of(rt.bindings@[b].source as int)),
{
    assert forall|b: int| 0 <= b < rt.bindings@.len() implies #[trigger] rt.shown(b) == Some(rt.text_of(rt.bindings@[b].source as int)) by {
        assert(rt.binding_wf(rt.bindings@[b]));
        assert(rt.caught_up(b));
    }
}

/// Late subscription: a display created as a fresh receiver after its container
/// has broadcast at least once is behind, and what its first turn applies is the
/// text of the container's current value, never an older one.
pub proof fn lemma_late_subscriber<V: Text>(rt: &Runtime<V>, b: int)
    requires
        rt.wf(),
        0 <= b < rt.bindings@.len(),
        rt.bindings@[b].seen == 0,
        rt.state_id_of(rt.bindings@[b].source as int) > 0,
    ensures
        !rt.caught_up(b),
        rt.channels@[rt.bindings@[b].source as int].stream@ == rt.text_of(rt.bindings@[b].source as int),
{
    assert(rt.binding_wf(rt.bindings@[b]));
}

/// A put on any container but the target keeps a derivation consistent: a put on
/// its source leaves it behind, to catch up on its next turn, and a put elsewhere
/// changes neither value it relates.
pub proof fn lemma_put_keeps_derivation<V: Text, F: Fn(V) -> V>(
    before: &Runtime<V>,
    after: &Runtime<V>,
    d: &Derivation<F>,
    c: int,
    v: V,
)
    requires
        before.wf(),
        d.wf_in(before),
        d.consistent(before),
        0 <= c < before.count(),
        c != d.target,
        after.is_put(before, c, v),
    ensures
        d.wf_in(after),
        d.consistent(after),
{
    if c != d.source {
        assert(after.channels@[d.source as int] == before.channels@[d.source as int]);
    }
}

/// No cross-talk: when every display had caught up and one put on container `x`
/// follows, the turns that bring the displays up to date write only to nodes of
/// displays of `x`.
pub proof fn lemma_no_cross_talk<V: Text>(
    settled: &Runtime<V>,
    put: &Runtime<V>,
    done: &Runtime<V>,
    x: int,
    v: V,
)
    requires
        settled.wf(),
        forall|b: int| 0 <= b < settled.bindings@.len() ==> #[trigger] settled.caught_up(b),
        0 <= x < settled.count(),
        put.is_put(settled, x, v),
        done.writes_only_behind(put),
    ensures
        forall|j: int|
            settled.document.journal@.len() <= j < done.document.journal@.len() ==> #[trigger] done.write_of_source(
                settled,
                j,
                x,
            ),
{
    assert forall|j: int|
        settled.document.journal@.len() <= j < done.document.journal@.len() implies #[trigger] done.write_of_source(
            settled,
            j,
            x,
        ) by {
        assert(done.write_of_behind(put, j));
        let b = choose|b: int|
            0 <= b < put.bindings@.len() && #[trigger] put.bindings@[b].node == done.document.journal@[j]
                && !put.caught_up(b);
        assert(settled.caught_up(b));
        if settled.bindings@[b].source != x {
            assert(put.channels@[settled.bindings@[b].source as int] == settled.channels@[settled.bindings@[b].source as int]);
        }
        assert(settled.bindings@[b].node == done.document.journal@[j]);
    }
}

/// Ordering of views: once a view has applied every change sent to it, its
/// element holds one node per item, in the items' order, node `k` displaying item
/// `k`, whatever structural changes were made and however they interleaved with
/// the turns of other views.
pub proof fn lemma_views_converge<S: StateTrait + Copy, V: Text>(sv: &StateVec<S>, rt: &Runtime<V>, v: int)
    requires
        sv.wf(),
        sv.rendered_in(&rt.document, rt.count()),
        sv.shows_items(rt),
        0 <= v < sv.views@.len(),
        sv.views@[v].queue@.len() == 0,
    ensures
        sv.views@[v].rendered@ == sv.items@,
        rt.document.children_of(sv.views@[v].enclose) == sv.views@[v].nodes@,
        sv.views@[v].nodes@.len() == sv.items@.len(),
        forall|k: int| 0 <= k < sv.items@.len() ==> item_node(
            rt,
            #[trigger] sv.views@[v].nodes@[k],
            sv.views@[v].item_tag@,
            sv.items@[k].spec_id(),
        ),
{
    assert(sv.views@[v].mirrored(&rt.document));
    assert(sv.views@[v].tracks(sv.items@));
}

/// Per-view order: every change queued for a view refers only to positions that
/// exist once the changes queued before it are applied. So a removal never comes
/// before the insertion of the item that it removes.
pub proof fn lemma_queue_in_order<S>(s: Seq<S>, q: Seq<super::state_vec::Change<S>>, k: int)
    requires
        replayable(s, q),
        0 <= k < q.len(),
    ensures
        applicable(replay(s, q.subrange(0, k)), q[k]),
    decreases q.len(),
{
    if k == q.len() - 1 {
        assert(q.subrange(0, k) =~= q.drop_last());
    } else {
        let p = q.drop_last();
        lemma_queue_in_order(s, p, k);
        assert(p.subrange(0, k) =~= q.subrange(0, k));
    }
}

} // verus!
