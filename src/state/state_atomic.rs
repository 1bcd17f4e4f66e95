use vstd::prelude::*;

use super::{Runtime, StateTrait};
use crate::dom::Node;
use crate::text::Text;

verus! {

/// A state container for values that are copied out whole.
///
/// The handle is the container's identity: copies of it refer to the same
/// payload and the same broadcast slot, and two handles are equal exactly when
/// they refer to the same container.
#[derive(Clone, Copy, Debug, PartialEq, Eq, Structural)]
pub struct StateAtomic {
    pub id: usize,
}

impl StateTrait for StateAtomic {
    open spec fn spec_id(&self) -> usize {
        self.id
    }

    fn id(&self) -> (r: usize) {
        self.id
    }
}

impl StateAtomic {
    /// A new container holding `value`, with nothing broadcast yet.
    pub fn new<V: Copy + Text>(rt: &mut Runtime<V>, value: V) -> (r: StateAtomic)
        requires
            old(rt).wf(),
            old(rt).count() < usize::MAX,
        ensures
            final(rt).wf(),
            r.id == old(rt).count(),
            final(rt).values@ == old(rt).values@.push(value),
            final(rt).channels@.len() == old(rt).channels@.len() + 1,
            final(rt).state_id_of(r.id as int) == 0,
            forall|c: int| 0 <= c < old(rt).channels@.len() ==> #[trigger] final(rt).channels@[c] == old(rt).channels@[c],
            final(rt).bindings@ == old(rt).bindings@,
            final(rt).document == old(rt).document,
    {
        StateAtomic { id: rt.add_container(value) }
    }

    /// A copy of the current value.
    pub fn value<V: Copy + Text>(&self, rt: &Runtime<V>) -> (r: V)
        requires
            rt.wf(),
            self.id < rt.count(),
        ensures
            r == rt.value_of(self.id as int),
    {
        rt.values[self.id]
    }

    /// Stores `value`, then broadcasts it.
    pub fn put<V: Copy + Text>(&self, rt: &mut Runtime<V>, value: V)
        requires
            old(rt).wf(),
            self.id < old(rt).count(),
            old(rt).state_id_of(self.id as int) < u64::MAX,
        ensures
            final(rt).wf(),
            final(rt).is_put(old(rt), self.id as int, value),
    {
        rt.put(self.id, value)
    }

    /// Broadcasts the current value again.
    pub fn update<V: Copy + Text>(&self, rt: &mut Runtime<V>)
        requires
            old(rt).wf(),
            self.id < old(rt).count(),
            old(rt).state_id_of(self.id as int) < u64::MAX,
        ensures
            final(rt).wf(),
            final(rt).is_put(old(rt), self.id as int, old(rt).value_of(self.id as int)),
    {
        rt.update(self.id)
    }

    /// A new text node that shows this container's value and follows its changes.
    pub fn render<V: Copy + Text>(&self, rt: &mut Runtime<V>) -> (n: Node)
        requires
            old(rt).wf(),
            self.id < old(rt).count(),
            old(rt).document.nodes@.len() < usize::MAX,
        ensures
            final(rt).wf(),
            final(rt).values@ == old(rt).values@,
            final(rt).channels@ == old(rt).channels@,
            final(rt).bindings@ == old(rt).bindings@.push(super::Binding { source: self.id, node: n, seen: 0, attr: None }),
            n.index == old(rt).document.nodes@.len(),
            final(rt).document.content_of(n) == old(rt).text_of(self.id as int),
            final(rt).document.nodes@.len() == old(rt).document.nodes@.len() + 1,
            forall|m: int| 0 <= m < old(rt).document.nodes@.len() ==> #[trigger] final(rt).document.nodes@[m]
                == old(rt).document.nodes@[m],
            final(rt).document.body == old(rt).document.body,
            final(rt).document.journal@ == old(rt).document.journal@,
    {
        let n = rt.display(self.id);
        proof {
            assert(rt.bindings@ =~= old(rt).bindings@.push(super::Binding { source: self.id, node: n, seen: 0, attr: None }));
        }
        n
    }
}

/// Integer division that rounds toward zero, as Rust's `/` does.
pub open spec fn div_toward_zero(a: i64, b: i64) -> i64 {
    let q = (if a >= 0 { a as int } else { -a }) / (if b >= 0 { b as int } else { -b });
    (if (a >= 0) == (b >= 0) { q } else { -q }) as i64
}

/// The remainder that goes with `div_toward_zero`: it has the sign of `a`.
pub open spec fn rem_toward_zero(a: i64, b: i64) -> i64 {
    let r = (if a >= 0 { a as int } else { -a }) % (if b >= 0 { b as int } else { -b });
    (if a >= 0 { r } else { -r }) as i64
}

pub(crate) fn div_toward_zero_exec(a: i64, b: i64) -> (r: i64)
    requires
        b != 0,
        !(a == i64::MIN && b == -1),
    ensures
        r == div_toward_zero(a, b),
{
    let aa: i128 = if a >= 0 { a as i128 } else { -(a as i128) };
    let bb: i128 = if b >= 0 { b as i128 } else { -(b as i128) };
    let q: i128 = aa / bb;
    proof {
        assert(0 <= q <= aa) by (nonlinear_arith)
            requires
                aa >= 0,
                bb >= 1,
                q == aa / bb,
        ;
        if bb >= 2 {
            assert(q <= aa / 2) by (nonlinear_arith)
                requires
                    aa >= 0,
                    bb >= 2,
                    q == aa / bb,
            ;
        }
    }
    if (a >= 0) == (b >= 0) {
        q as i64
    } else {
        (-q) as i64
    }
}

pub(crate) fn rem_toward_zero_exec(a: i64, b: i64) -> (r: i64)
    requires
        b != 0,
    ensures
        r == rem_toward_zero(a, b),
{
    let aa: i128 = if a >= 0 { a as i128 } else { -(a as i128) };
    let bb: i128 = if b >= 0 { b as i128 } else { -(b as i128) };
    let m: i128 = aa % bb;
    proof {
        assert(0 <= m < bb) by (nonlinear_arith)
            requires
                bb >= 1,
                m == aa % bb,
        ;
    }
    if a >= 0 {
        m as i64
    } else {
        (-m) as i64
    }
}

impl StateAtomic {
    /// Adds `other` to the value, then broadcasts once.
    pub fn add_assign(&self, rt: &mut Runtime<i64>, other: i64)
        requires
            old(rt).wf(),
            self.id < old(rt).count(),
            old(rt).state_id_of(self.id as int) < u64::MAX,
            i64::MIN <= old(rt).value_of(self.id as int) + other <= i64::MAX,
        ensures
            final(rt).wf(),
            final(rt).is_put(old(rt), self.id as int, (old(rt).value_of(self.id as int) + other) as i64),
    {
        let mut value = self.value(rt);
        value = value + other;
        self.put(rt, value);
    }

    /// Subtracts `other` from the value, then broadcasts once.
    pub fn sub_assign(&self, rt: &mut Runtime<i64>, other: i64)
        requires
            old(rt).wf(),
            self.id < old(rt).count(),
            old(rt).state_id_of(self.id as int) < u64::MAX,
            i64::MIN <= old(rt).value_of(self.id as int) - other <= i64::MAX,
        ensures
            final(rt).wf(),
            final(rt).is_put(old(rt), self.id as int, (old(rt).value_of(self.id as int) - other) as i64),
    {
        let mut value = self.value(rt);
        value = value - other;
        self.put(rt, value);
    }

    /// Multiplies the value by `other`, then broadcasts once.
    pub fn mul_assign(&self, rt: &mut Runtime<i64>, other: i64)
        requires
            old(rt).wf(),
            self.id < old(rt).count(),
            old(rt).state_id_of(self.id as int) < u64::MAX,
            i64::MIN <= old(rt).value_of(self.id as int) * other <= i64::MAX,
        ensures
            final(rt).wf(),
            final(rt).is_put(old(rt), self.id as int, (old(rt).value_of(self.id as int) * other) as i64),
    {
        let mut value = self.value(rt);
        value = value * other;
        self.put(rt, value);
    }

    /// Divides the value by `other`, rounding toward zero, then broadcasts once.
    pub fn div_assign(&self, rt: &mut Runtime<i64>, other: i64)
        requires
            old(rt).wf(),
            self.id < old(rt).count(),
            old(rt).state_id_of(self.id as int) < u64::MAX,
            other != 0,
            !(old(rt).value_of(self.id as int) == i64::MIN && other == -1),
        ensures
            final(rt).wf(),
            final(rt).is_put(old(rt), self.id as int, div_toward_zero(old(rt).value_of(self.id as int), other)),
    {
        let mut value = self.value(rt);
        value = div_toward_zero_exec(value, other);
        self.put(rt, value);
    }

    /// Replaces the value by its remainder on division by `other`, with the sign of the value, then broadcasts once.
    pub fn rem_assign(&self, rt: &mut Runtime<i64>, other: i64)
        requires
            old(rt).wf(),
            self.id < old(rt).count(),
            old(rt).state_id_of(self.id as int) < u64::MAX,
            other != 0,
            !(old(rt).value_of(self.id as int) == i64::MIN && other == -1),
        ensures
            final(rt).wf(),
            final(rt).is_put(old(rt), self.id as int, rem_toward_zero(old(rt).value_of(self.id as int), other)),
    {
        let mut value = self.value(rt);
        value = rem_toward_zero_exec(value, other);
        self.put(rt, value);
    }
}

} // verus!
