use valerie_core::dom::Document;
use valerie_core::store::{Assign, Formatter, Mutator, Ready, Singleton, Store};

#[test]
fn get_adds_missing_key_from_template() {
    let mut store: Store<i64> = Store::new();
    assert_eq!(store.get(7, &5), (5, Ready::Dirty));
    assert_eq!(store.entries.len(), 1);
    assert_eq!(store.get(7, &99), (5, Ready::Dirty));
    assert_eq!(store.entries.len(), 1);
}

#[test]
fn mutate_marks_ready_and_notifies() {
    let mut store: Store<i64> = Store::new();
    store.insert(1, 3);
    store.insert(2, 4);
    store.mutate(1, &Assign { value: 13 });
    assert_eq!(store.get(1, &0), (13, Ready::Ready));
    assert_eq!(Assign { value: 2 }.mutate(&9), 2);
    assert_eq!(store.get(2, &0), (4, Ready::Dirty));
    store.mutate(2, &Assign { value: 40 });
    assert_eq!(store.get(2, &0), (40, Ready::Ready));
    assert_eq!(store.entries[0].state_id, 1);
    store.notify(1);
    assert_eq!(store.entries[0].state_id, 2);
    store.update(2, 8);
    assert_eq!(store.get(2, &0), (8, Ready::Ready));
}

#[test]
fn formatter_follows_notifications() {
    let mut store: Store<i64> = Store::new();
    let mut doc = Document::new();
    let (node, mut task) = Formatter::formatted(&mut store, &mut doc, 5, &0, |v: i64, r: Ready| {
        format!("{} {}", v, if r == Ready::Ready { "ready" } else { "pending" })
    });
    assert_eq!(doc.nodes[node.index].content, "0 pending");
    assert!(!task.poll(&store, &mut doc));
    store.mutate(5, &Assign { value: 10 });
    assert!(task.poll(&store, &mut doc));
    assert_eq!(doc.nodes[node.index].content, "10 ready");
}

#[test]
fn singleton_mutate_and_notify() {

    let mut s = Singleton::new(1u64);
    assert_eq!(s.get(), 1);
    s.ready = Ready::Loading;
    s.mutate(&Assign { value: 6u64 });
    assert_eq!(s.get(), 6);
    assert_eq!(s.ready, Ready::Ready);
    s.notify();
    assert_eq!(s.state_id, 2);
}
