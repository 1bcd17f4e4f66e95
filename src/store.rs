use vstd::prelude::*;

use crate::dom::{Document, Node};

verus! {

/// A change that can be applied to a value of type `V`.
pub trait Mutator<V> {
    /// The value that the change makes of `v`.
    spec fn spec_mutate(&self, v: V) -> V;

    /// Applies the change to `v`.
    fn mutate(&self, v: &V) -> (r: V)
        ensures
            r == self.spec_mutate(*v),
    ;
}

/// The change that replaces a value by `value`.
pub struct Assign<V> {
    pub value: V,
}

impl<V: Copy> Mutator<V> for Assign<V> {
    open spec fn spec_mutate(&self, v: V) -> V {
        self.value
    }

    fn mutate(&self, v: &V) -> (r: V) {
        self.value
    }
}

/// Where a value that is kept in sync with a remote service stands.
#[derive(Clone, Copy, Debug, PartialEq, Eq, Structural)]
pub enum Ready {
    /// The value is the latest.
    Ready,
    /// The value is being loaded.
    Loading,
    /// The value is being edited.
    Editing,
    /// The value changed since it was last loaded.
    Dirty,
    /// The value is being saved.
    Saving,
    /// The last exchange with the service failed.
    Error,
}

/// The position of each key's entry in a `Store`, kept in a hashbrown map that
/// Verus does not see into; `index_of` names what it holds.
#[verifier::external_body]
pub struct KeyIndex {
    map: hashbrown::HashMap<u64, usize>,
}

/// What a key index maps each key to.
pub uninterp spec fn index_of(m: KeyIndex) -> Map<u64, usize>;

impl KeyIndex {
    /// Relies on hashbrown::HashMap::new: the map is empty.
    #[verifier::external_body]
    fn new() -> (r: KeyIndex)
        ensures
            forall|k: u64| !(#[trigger] index_of(r).contains_key(k)),
    {
        KeyIndex { map: hashbrown::HashMap::new() }
    }

    /// Relies on hashbrown::HashMap::get: the value stored under `k`, if any.
    #[verifier::external_body]
    fn get(&self, k: u64) -> (r: Option<usize>)
        ensures
            r == if index_of(*self).contains_key(k) {
                Some(index_of(*self)[k])
            } else {
                None::<usize>
            },
    {
        self.map.get(&k).copied()
    }

    /// Relies on hashbrown::HashMap::insert: afterwards `k` maps to `v` and every
    /// other key keeps its value.
    #[verifier::external_body]
    fn insert(&mut self, k: u64, v: usize)
        ensures
            index_of(*final(self)) == index_of(*old(self)).insert(k, v),
    {
        self.map.insert(k, v);
    }
}

/// One object of a store: its key, its value, where it stands, and the state id
/// of the last notification sent for it (0 before the first).
pub struct Entry<V> {
    pub key: u64,
    pub value: V,
    pub ready: Ready,
    pub state_id: u64,
}

/// An in-memory database of objects keyed by id, each with the state of its
/// value and a notification counter that displays of it follow.
pub struct Store<V> {
    pub index: KeyIndex,
    pub entries: Vec<Entry<V>>,
}

impl<V> Store<V> {
    /// The index maps each key held to the position of its entry, and nothing else.
    pub open spec fn wf(&self) -> bool {
        &&& forall|k: u64| #[trigger] index_of(self.index).contains_key(k) ==> {
            &&& index_of(self.index)[k] < self.entries@.len()
            &&& self.entries@[index_of(self.index)[k] as int].key == k
        }
        &&& forall|i: int| 0 <= i < self.entries@.len() ==> {
            &&& index_of(self.index).contains_key(#[trigger] self.entries@[i].key)
            &&& index_of(self.index)[self.entries@[i].key] == i
        }
    }

    pub open spec fn has(&self, k: u64) -> bool {
        index_of(self.index).contains_key(k)
    }

    /// The entry of key `k`; meaningful when the store has it.
    pub open spec fn entry(&self, k: u64) -> Entry<V> {
        self.entries@[index_of(self.index)[k] as int]
    }

    /// Every key but `k` has the entry that it has in `old`.
    pub open spec fn others_kept(&self, old: &Store<V>, k: u64) -> bool {
        forall|j: u64| j != k && #[trigger] old.has(j) ==> self.has(j) && self.entry(j) == old.entry(j)
    }

    /// An empty store.
    pub fn new() -> (r: Store<V>)
        ensures
            r.wf(),
            forall|k: u64| !#[trigger] r.has(k),
    {
        Store { index: KeyIndex::new(), entries: Vec::new() }
    }

    /// Adds key `id` with `value`, marked as changed since it was loaded. The key
    /// must be new.
    pub fn insert(&mut self, id: u64, value: V)
        requires
            old(self).wf(),
            !old(self).has(id),
            old(self).entries@.len() < usize::MAX,
        ensures
            final(self).wf(),
            final(self).has(id),
            final(self).entry(id) == (Entry { key: id, value, ready: Ready::Dirty, state_id: 0 }),
            forall|k: u64| k != id ==> (#[trigger] final(self).has(k) <==> old(self).has(k)),
            final(self).others_kept(old(self), id),
    {
        let pos = self.entries.len();
        self.entries.push(Entry { key: id, value, ready: Ready::Dirty, state_id: 0 });
        self.index.insert(id, pos);
        proof {
            assert forall|i: int| 0 <= i < self.entries@.len() implies {
                &&& index_of(self.index).contains_key(#[trigger] self.entries@[i].key)
                &&& index_of(self.index)[self.entries@[i].key] == i
            } by {
                if i < pos {
                    assert(self.entries@[i] == old(self).entries@[i]);
                    assert(old(self).entries@[i].key != id);
                }
            }
        }
    }

    /// The position of key `id`'s entry.
    fn position(&self, id: u64) -> (r: Option<usize>)
        requires
            self.wf(),
        ensures
            r matches Some(p) ==> self.has(id) && p == index_of(self.index)[id] && p < self.entries@.len(),
            r is None ==> !self.has(id),
    {
        self.index.get(id)
    }

    /// Replaces the value and state of key `id`'s entry, and sends a
    /// notification for it.
    fn set(&mut self, id: u64, value: V, ready: Ready)
        requires
            old(self).wf(),
            old(self).has(id),
            old(self).entry(id).state_id < u64::MAX,
        ensures
            final(self).wf(),
            forall|k: u64| #[trigger] final(self).has(k) <==> old(self).has(k),
            final(self).entry(id) == (Entry { key: id, value, ready, state_id: (old(self).entry(id).state_id + 1) as u64 }),
            final(self).others_kept(old(self), id),
            index_of(final(self).index) == index_of(old(self).index),
    {
        let p = self.index.get(id).unwrap();
        let next = self.entries[p].state_id + 1;
        self.entries.set(p, Entry { key: id, value, ready, state_id: next });
        proof {
            assert forall|i: int| 0 <= i < self.entries@.len() implies {
                &&& index_of(self.index).contains_key(#[trigger] self.entries@[i].key)
                &&& index_of(self.index)[self.entries@[i].key] == i
            } by {
                if i != p {
                    assert(self.entries@[i] == old(self).entries@[i]);
                }
            }
            assert forall|j: u64| j != id && #[trigger] old(self).has(j) implies self.has(j) && self.entry(j) == old(self).entry(j) by {
                assert(index_of(self.index)[j] != p);
            }
        }
    }

    /// The value of key `id` and where it stands. A key that is not there yet is
    /// added with a copy of `template`, marked as changed since it was loaded.
    pub fn get(&mut self, id: u64, template: &V) -> (r: (V, Ready))
        where V: Copy,
        requires
            old(self).wf(),
            old(self).entries@.len() < usize::MAX,
        ensures
            final(self).wf(),
            old(self).has(id) ==> r == (old(self).entry(id).value, old(self).entry(id).ready)
                && final(self).entries@ == old(self).entries@ && index_of(final(self).index) == index_of(old(self).index),
            !old(self).has(id) ==> r == (*template, Ready::Dirty)
                && final(self).entry(id) == (Entry { key: id, value: *template, ready: Ready::Dirty, state_id: 0 }),
            final(self).has(id),
            forall|k: u64| k != id ==> (#[trigger] final(self).has(k) <==> old(self).has(k)),
            final(self).others_kept(old(self), id),
    {
        match self.position(id) {
            Some(p) => (self.entries[p].value, self.entries[p].ready),
            None => {
                self.insert(id, *template);
                (*template, Ready::Dirty)
            },
        }
    }

    /// Applies `m` to the value of key `id`, marks it as the latest, and sends a
    /// notification.
    pub fn mutate<M: Mutator<V>>(&mut self, id: u64, m: &M)
        requires
            old(self).wf(),
            old(self).has(id),
            old(self).entry(id).state_id < u64::MAX,
        ensures
            final(self).wf(),
            forall|k: u64| #[trigger] final(self).has(k) <==> old(self).has(k),
            final(self).entry(id).value == m.spec_mutate(old(self).entry(id).value),
            final(self).entry(id).ready == Ready::Ready,
            final(self).entry(id).state_id == old(self).entry(id).state_id + 1,
            final(self).others_kept(old(self), id),
    {
        let p = self.index.get(id).unwrap();
        let v = m.mutate(&self.entries[p].value);
        self.set(id, v, Ready::Ready);
    }

    /// Stores `value` for key `id` as loaded from the service, marks it as the
    /// latest, and sends a notification.
    pub fn update(&mut self, id: u64, value: V)
        requires
            old(self).wf(),
            old(self).has(id),
            old(self).entry(id).state_id < u64::MAX,
        ensures
            final(self).wf(),
            forall|k: u64| #[trigger] final(self).has(k) <==> old(self).has(k),
            final(self).entry(id) == (Entry { key: id, value, ready: Ready::Ready, state_id: (old(self).entry(id).state_id + 1) as u64 }),
            final(self).others_kept(old(self), id),
    {
        self.set(id, value, Ready::Ready);
    }

    /// Sends a notification for key `id` without changing its entry otherwise.
    pub fn notify(&mut self, id: u64)
        where V: Copy,
        requires
            old(self).wf(),
            old(self).has(id),
            old(self).entry(id).state_id < u64::MAX,
        ensures
            final(self).wf(),
            forall|k: u64| #[trigger] final(self).has(k) <==> old(self).has(k),
            final(self).entry(id).value == old(self).entry(id).value,
            final(self).entry(id).ready == old(self).entry(id).ready,
            final(self).entry(id).state_id == old(self).entry(id).state_id + 1,
            final(self).others_kept(old(self), id),
    {
        let p = self.index.get(id).unwrap();
        let v = self.entries[p].value;
        let r = self.entries[p].ready;
        self.set(id, v, r);
    }
}

/// A single object held in memory, with where its value stands and a
/// notification counter that displays of it follow.
pub struct Singleton<V> {
    pub value: V,
    pub ready: Ready,
    pub state_id: u64,
}

impl<V: Copy> Singleton<V> {
    /// An object holding `value`, as the latest, with no notification sent.
    pub fn new(value: V) -> (r: Singleton<V>)
        ensures
            r == (Singleton { value, ready: Ready::Ready, state_id: 0 }),
    {
        Singleton { value, ready: Ready::Ready, state_id: 0 }
    }

    /// A copy of the value.
    pub fn get(&self) -> (r: V)
        ensures
            r == self.value,
    {
        self.value
    }

    /// Applies `m` to the value, marks it as the latest, and sends a notification.
    pub fn mutate<M: Mutator<V>>(&mut self, m: &M)
        requires
            old(self).state_id < u64::MAX,
        ensures
            *final(self) == (Singleton {
                value: m.spec_mutate(old(self).value),
                ready: Ready::Ready,
                state_id: (old(self).state_id + 1) as u64,
            }),
    {
        self.value = m.mutate(&self.value);
        self.ready = Ready::Ready;
        self.state_id = self.state_id + 1;
    }

    /// Sends a notification without changing the value.
    pub fn notify(&mut self)
        requires
            old(self).state_id < u64::MAX,
        ensures
            final(self).value == old(self).value,
            final(self).ready == old(self).ready,
            final(self).state_id == old(self).state_id + 1,
    {
        self.state_id = self.state_id + 1;
    }
}

/// A live display of a store entry: a text node showing `func` of the entry's
/// value and state, and the state id of the last notification applied.
pub struct Formatter<F> {
    pub key: u64,
    pub node: Node,
    pub seen: u64,
    pub func: F,
}

impl<F> Formatter<F> {
    /// A text node showing `func` of key `id`'s value and state (the key is added
    /// from `template` when it is not there), and the task that keeps it so.
    pub fn formatted<V: Copy>(store: &mut Store<V>, doc: &mut Document, id: u64, template: &V, func: F) -> (r: (Node, Formatter<F>))
        where F: Fn(V, Ready) -> String,
        requires
            old(store).wf(),
            old(store).entries@.len() < usize::MAX,
            old(doc).wf(),
            old(doc).nodes@.len() < usize::MAX,
            forall|v: V, s: Ready| func.requires((v, s)),
        ensures
            final(store).wf(),
            final(store).has(id),
            final(doc).wf(),
            final(doc).is_text(r.0),
            r.0.index == old(doc).nodes@.len(),
            r.1.key == id && r.1.node == r.0 && r.1.seen == 0 && r.1.func == func,
            exists|t: String| func.ensures((final(store).entry(id).value, final(store).entry(id).ready), t)
                && t@ == final(doc).content_of(r.0),
    {
        let (v, ready) = store.get(id, template);
        let t = func(v, ready);
        let n = doc.create_text_node(t.as_str());
        (n, Formatter { key: id, node: n, seen: 0, func })
    }

    /// One turn of the task: when a notification was sent for the entry since
    /// the task last looked, the node is given `func` of the entry's current value
    /// and state. Returns whether it wrote to the node.
    pub fn poll<V: Copy>(&mut self, store: &Store<V>, doc: &mut Document) -> (wrote: bool)
        where F: Fn(V, Ready) -> String,
        requires
            store.wf(),
            store.has(old(self).key),
            old(self).seen <= store.entry(old(self).key).state_id,
            old(doc).wf(),
            old(doc).is_text(old(self).node),
            forall|v: V, s: Ready| old(self).func.requires((v, s)),
        ensures
            final(self).key == old(self).key && final(self).node == old(self).node && final(self).func == old(self).func,
            final(self).seen == store.entry(old(self).key).state_id,
            wrote == (old(self).seen < store.entry(old(self).key).state_id),
            final(doc).wf(),
            final(doc).is_text(old(self).node),
            wrote ==> final(doc).others_kept(old(doc), old(self).node)
                && final(doc).journal@ == old(doc).journal@.push(old(self).node)
                && exists|t: String| old(self).func.ensures((store.entry(old(self).key).value, store.entry(old(self).key).ready), t)
                    && t@ == final(doc).content_of(old(self).node),
            !wrote ==> *final(doc) == *old(doc),
    {
        let p = store.position(self.key).unwrap();
        let latest = store.entries[p].state_id;
        if self.seen < latest {
            let t = (self.func)(store.entries[p].value, store.entries[p].ready);
            doc.set_text(self.node, t.as_str());
            self.seen = latest;
            true
        } else {
            false
        }
    }
}

} // verus!
