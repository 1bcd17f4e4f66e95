use vstd::prelude::*;

use super::{Runtime, StateTrait};
use super::state_atomic::StateAtomic;
use super::state_mutex::StateMutex;
use crate::text::Text;

verus! {

/// The task that keeps a derived container equal to a projection of its source:
/// the source and target container ids, the state id of the source's last
/// broadcast that it has applied, and the projection.
pub struct Derivation<F> {
    pub source: usize,
    pub target: usize,
    pub seen: u64,
    pub func: F,
}

impl<F> Derivation<F> {
    /// The ids are containers of `rt`, distinct, and the task has seen no state
    /// id that the source has not sent.
    pub open spec fn wf_in<V: Text>(&self, rt: &Runtime<V>) -> bool {
        &&& self.source < rt.count()
        &&& self.target < rt.count()
        &&& self.source != self.target
        &&& self.seen <= rt.state_id_of(self.source as int)
    }

    /// Once the task has caught up with its source, the target holds the
    /// projection of the source's current value.
    pub open spec fn consistent<V: Text>(&self, rt: &Runtime<V>) -> bool
        where F: Fn(V) -> V,
    {
        self.seen == rt.state_id_of(self.source as int) ==> self.func.ensures(
            (rt.value_of(self.source as int),),
            rt.value_of(self.target as int),
        )
    }

    /// One turn of the task: when the source has broadcast since the task last
    /// looked, the projection of the source's current value is put into the
    /// target (one broadcast of the target), and the task takes the source's
    /// latest state id. Returns whether it put a value.
    pub fn poll<V: Copy + Text>(&mut self, rt: &mut Runtime<V>) -> (changed: bool)
        where F: Fn(V) -> V,
        requires
            old(rt).wf(),
            old(self).wf_in(old(rt)),
            old(self).consistent(old(rt)),
            forall|x: V| old(self).func.requires((x,)),
            old(rt).state_id_of(old(self).target as int) < u64::MAX,
        ensures
            final(rt).wf(),
            final(self).wf_in(final(rt)),
            final(self).consistent(final(rt)),
            final(self).source == old(self).source,
            final(self).target == old(self).target,
            final(self).func == old(self).func,
            final(self).seen == final(rt).state_id_of(final(self).source as int),
            changed == (old(self).seen < old(rt).state_id_of(old(self).source as int)),
            changed ==> final(rt).is_put(old(rt), old(self).target as int, final(rt).value_of(old(self).target as int)),
            changed ==> old(self).func.ensures((old(rt).value_of(old(self).source as int),), final(rt).value_of(old(self).target as int)),
            !changed ==> *final(rt) == *old(rt),
    {
        let latest = rt.channels[self.source].state_id;
        if self.seen < latest {
            let v = (self.func)(rt.values[self.source]);
            rt.put(self.target, v);
            self.seen = latest;
            true
        } else {
            false
        }
    }

    /// `poll` for values that are cloned out: the projection is applied to a
    /// clone of the source's current value.
    pub fn poll_cloned<V: Clone + Text>(&mut self, rt: &mut Runtime<V>) -> (changed: bool)
        where F: Fn(V) -> V,
        requires
            old(rt).wf(),
            old(self).wf_in(old(rt)),
            forall|x: V| old(self).func.requires((x,)),
            old(rt).state_id_of(old(self).target as int) < u64::MAX,
        ensures
            final(rt).wf(),
            final(self).wf_in(final(rt)),
            final(self).source == old(self).source,
            final(self).target == old(self).target,
            final(self).func == old(self).func,
            final(self).seen == final(rt).state_id_of(final(self).source as int),
            changed == (old(self).seen < old(rt).state_id_of(old(self).source as int)),
            changed ==> final(rt).is_put(old(rt), old(self).target as int, final(rt).value_of(old(self).target as int)),
            changed ==> exists|x: V| cloned(old(rt).value_of(old(self).source as int), x)
                && old(self).func.ensures((x,), final(rt).value_of(old(self).target as int)),
            !changed ==> *final(rt) == *old(rt),
    {
        let latest = rt.channels[self.source].state_id;
        if self.seen < latest {
            let x = rt.values[self.source].clone();
            let ghost gx = x;
            let v = (self.func)(x);
            rt.put(self.target, v);
            self.seen = latest;
            proof {
                assert(cloned(old(rt).value_of(old(self).source as int), gx));
                assert(old(self).func.ensures((gx,), rt.value_of(old(self).target as int)));
            }
            true
        } else {
            false
        }
    }
}

impl StateAtomic {
    /// A container whose value is `func` of `state`'s value, and the task that
    /// keeps it so. The task starts as a fresh receiver of `state`'s broadcasts.
    pub fn from<V: Copy + Text, S: StateTrait, F: Fn(V) -> V>(rt: &mut Runtime<V>, state: &S, func: F) -> (r: (StateAtomic, Derivation<F>))
        requires
            old(rt).wf(),
            state.spec_id() < old(rt).count(),
            old(rt).count() < usize::MAX,
            forall|x: V| func.requires((x,)),
        ensures
            final(rt).wf(),
            r.0.id == old(rt).count(),
            r.1.source == state.spec_id(),
            r.1.target == r.0.id,
            r.1.seen == 0,
            r.1.func == func,
            r.1.wf_in(final(rt)),
            r.1.consistent(final(rt)),
            func.ensures((old(rt).value_of(state.spec_id() as int),), final(rt).value_of(r.0.id as int)),
            final(rt).values@.len() == old(rt).values@.len() + 1,
            forall|c: int| 0 <= c < old(rt).count() ==> #[trigger] final(rt).values@[c] == old(rt).values@[c],
            forall|c: int| 0 <= c < old(rt).count() ==> #[trigger] final(rt).channels@[c] == old(rt).channels@[c],
            final(rt).state_id_of(r.0.id as int) == 0,
            final(rt).bindings@ == old(rt).bindings@,
            final(rt).document == old(rt).document,
    {
        let source = state.id();
        let v = func(rt.values[source]);
        let target = StateAtomic::new(rt, v);
        (target, Derivation { source, target: target.id, seen: 0, func })
    }
}

impl StateMutex {
    /// A container whose value is `func` of a clone of `state`'s value, and the
    /// task that keeps it so (with `poll_cloned`). The task starts as a fresh
    /// receiver of `state`'s broadcasts.
    pub fn from<V: Clone + Text, S: StateTrait, F: Fn(V) -> V>(rt: &mut Runtime<V>, state: &S, func: F) -> (r: (StateMutex, Derivation<F>))
        requires
            old(rt).wf(),
            state.spec_id() < old(rt).count(),
            old(rt).count() < usize::MAX,
            forall|x: V| func.requires((x,)),
        ensures
            final(rt).wf(),
            r.0.id == old(rt).count(),
            r.1.source == state.spec_id(),
            r.1.target == r.0.id,
            r.1.seen == 0,
            r.1.func == func,
            r.1.wf_in(final(rt)),
            exists|x: V| cloned(old(rt).value_of(state.spec_id() as int), x)
                && func.ensures((x,), final(rt).value_of(r.0.id as int)),
            final(rt).values@.len() == old(rt).values@.len() + 1,
            forall|c: int| 0 <= c < old(rt).count() ==> #[trigger] final(rt).values@[c] == old(rt).values@[c],
            forall|c: int| 0 <= c < old(rt).count() ==> #[trigger] final(rt).channels@[c] == old(rt).channels@[c],
            final(rt).state_id_of(r.0.id as int) == 0,
            final(rt).bindings@ == old(rt).bindings@,
            final(rt).document == old(rt).document,
    {
        let source = state.id();
        let x = rt.values[source].clone();
        let ghost gx = x;
        let v = func(x);
        let target = StateMutex::new(rt, v);
        proof {
            assert(cloned(old(rt).value_of(source as int), gx));
            assert(func.ensures((gx,), rt.value_of(target.id as int)));
        }
        (target, Derivation { source, target: target.id, seen: 0, func })
    }
}

} // verus!
