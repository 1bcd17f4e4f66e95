use vstd::prelude::*;

use super::{Binding, Runtime, StateTrait};
use crate::dom::Node;
use crate::text::Text;

verus! {

/// A state container for values that are cloned out.
///
/// As with `StateAtomic`, the handle is the container's identity.
#[derive(Clone, Copy, Debug, PartialEq, Eq, Structural)]
pub struct StateMutex {
    pub id: usize,
}

impl StateTrait for StateMutex {
    open spec fn spec_id(&self) -> usize {
        self.id
    }

    fn id(&self) -> (r: usize) {
        self.id
    }
}

impl StateMutex {
    /// A new container holding `value`, with nothing broadcast yet.
    pub fn new<V: Clone + Text>(rt: &mut Runtime<V>, value: V) -> (r: StateMutex)
        requires
            old(rt).wf(),
            old(rt).count() < usize::MAX,
        ensures
            final(rt).wf(),
            r.id == old(rt).count(),
            final(rt).values@ == old(rt).values@.push(value),
            final(rt).channels@.len() == old(rt).channels@.len() + 1,
            final(rt).state_id_of(r.id as int) == 0,
            forall|c: int| 0 <= c < old(rt).channels@.len() ==> #[trigger] final(rt).channels@[c] == old(rt).channels@[c],
            final(rt).bindings@ == old(rt).bindings@,
            final(rt).document == old(rt).document,
    {
        StateMutex { id: rt.add_container(value) }
    }

    /// A clone of the current value.
    pub fn value<V: Clone + Text>(&self, rt: &Runtime<V>) -> (r: V)
        requires
            rt.wf(),
            self.id < rt.count(),
        ensures
            cloned(rt.value_of(self.id as int), r),
    {
        rt.values[self.id].clone()
    }

    /// Stores `value`, then broadcasts it.
    pub fn put<V: Clone + Text>(&self, rt: &mut Runtime<V>, value: V)
        requires
            old(rt).wf(),
            self.id < old(rt).count(),
            old(rt).state_id_of(self.id as int) < u64::MAX,
        ensures
            final(rt).wf(),
            final(rt).is_put(old(rt), self.id as int, value),
    {
        rt.put(self.id, value)
    }

    /// Broadcasts the current value again: for a value changed in place.
    pub fn update<V: Clone + Text>(&self, rt: &mut Runtime<V>)
        requires
            old(rt).wf(),
            self.id < old(rt).count(),
            old(rt).state_id_of(self.id as int) < u64::MAX,
        ensures
            final(rt).wf(),
            final(rt).is_put(old(rt), self.id as int, old(rt).value_of(self.id as int)),
    {
        rt.update(self.id)
    }

    /// A new text node that shows this container's value and follows its changes.
    pub fn render<V: Clone + Text>(&self, rt: &mut Runtime<V>) -> (n: Node)
        requires
            old(rt).wf(),
            self.id < old(rt).count(),
            old(rt).document.nodes@.len() < usize::MAX,
        ensures
            final(rt).wf(),
            final(rt).values@ == old(rt).values@,
            final(rt).channels@ == old(rt).channels@,
            final(rt).bindings@ == old(rt).bindings@.push(Binding { source: self.id, node: n, seen: 0, attr: None }),
            n.index == old(rt).document.nodes@.len(),
            final(rt).document.content_of(n) == old(rt).text_of(self.id as int),
            final(rt).document.nodes@.len() == old(rt).document.nodes@.len() + 1,
            forall|m: int| 0 <= m < old(rt).document.nodes@.len() ==> #[trigger] final(rt).document.nodes@[m]
                == old(rt).document.nodes@[m],
            final(rt).document.body == old(rt).document.body,
            final(rt).document.journal@ == old(rt).document.journal@,
    {
        let n = rt.display(self.id);
        proof {
            assert(rt.bindings@ =~= old(rt).bindings@.push(Binding { source: self.id, node: n, seen: 0, attr: None }));
        }
        n
    }
}

impl StateMutex {
    /// Adds `other` to the value, then broadcasts once.
    pub fn add_assign(&self, rt: &mut Runtime<i64>, other: i64)
        requires
            old(rt).wf(),
            self.id < old(rt).count(),
            old(rt).state_id_of(self.id as int) < u64::MAX,
            i64::MIN <= old(rt).value_of(self.id as int) + other <= i64::MAX,
        ensures
            final(rt).wf(),
            final(rt).is_put(old(rt), self.id as int, (old(rt).value_of(self.id as int) + other) as i64),
    {
        let mut value = self.value(rt);
        value = value + other;
        self.put(rt, value);
    }

    /// Subtracts `other` from the value, then broadcasts once.
    pub fn sub_assign(&self, rt: &mut Runtime<i64>, other: i64)
        requires
            old(rt).wf(),
            self.id < old(rt).count(),
            old(rt).state_id_of(self.id as int) < u64::MAX,
            i64::MIN <= old(rt).value_of(self.id as int) - other <= i64::MAX,
        ensures
            final(rt).wf(),
            final(rt).is_put(old(rt), self.id as int, (old(rt).value_of(self.id as int) - other) as i64),
    {
        let mut value = self.value(rt);
        value = value - other;
        self.put(rt, value);
    }

    /// Multiplies the value by `other`, then broadcasts once.
    pub fn mul_assign(&self, rt: &mut Runtime<i64>, other: i64)
        requires
            old(rt).wf(),
            self.id < old(rt).count(),
            old(rt).state_id_of(self.id as int) < u64::MAX,
            i64::MIN <= old(rt).value_of(self.id as int) * other <= i64::MAX,
        ensures
            final(rt).wf(),
            final(rt).is_put(old(rt), self.id as int, (old(rt).value_of(self.id as int) * other) as i64),
    {
        let mut value = self.value(rt);
        value = value * other;
        self.put(rt, value);
    }

    /// Divides the value by `other`, rounding toward zero, then broadcasts once.
    pub fn div_assign(&self, rt: &mut Runtime<i64>, other: i64)
        requires
            old(rt).wf(),
            self.id < old(rt).count(),
            old(rt).state_id_of(self.id as int) < u64::MAX,
            other != 0,
            !(old(rt).value_of(self.id as int) == i64::MIN && other == -1),
        ensures
            final(rt).wf(),
            final(rt).is_put(old(rt), self.id as int, super::state_atomic::div_toward_zero(old(rt).value_of(self.id as int), other)),
    {
        let mut value = self.value(rt);
        value = super::state_atomic::div_toward_zero_exec(value, other);
        self.put(rt, value);
    }

    /// Replaces the value by its remainder on division by `other`, with the sign of the value, then broadcasts once.
    pub fn rem_assign(&self, rt: &mut Runtime<i64>, other: i64)
        requires
            old(rt).wf(),
            self.id < old(rt).count(),
            old(rt).state_id_of(self.id as int) < u64::MAX,
            other != 0,
            !(old(rt).value_of(self.id as int) == i64::MIN && other == -1),
        ensures
            final(rt).wf(),
            final(rt).is_put(old(rt), self.id as int, super::state_atomic::rem_toward_zero(old(rt).value_of(self.id as int), other)),
    {
        let mut value = self.value(rt);
        value = super::state_atomic::rem_toward_zero_exec(value, other);
        self.put(rt, value);
    }
}

} // verus!
