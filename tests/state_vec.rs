use valerie_core::dom::{Document, Node};
use valerie_core::html::elements::{Ol, Ul};
use valerie_core::state::state_vec::{Change, StateVecError};
use valerie_core::{Runtime, StateAtomic, StateVec, Tag};

/// The texts shown by the items of a view, in order.
fn item_texts(doc: &Document, enclose: Node) -> Vec<String> {
    doc.nodes[enclose.index]
        .children
        .iter()
        .map(|item| {
            let text = doc.nodes[item.index].children[0];
            doc.nodes[text.index].content.clone()
        })
        .collect()
}

#[test]
fn views_converge_to_logical_order() {
    let mut rt: Runtime<i64> = Runtime::new();
    let mut sv: StateVec<StateAtomic> = StateVec::new();
    let ul: Tag<Ul> = Tag::new(&mut rt.document);
    let ul = sv.view(&mut rt, ul, "li");
    let ol: Tag<Ol> = Tag::new(&mut rt.document);
    let ol = sv.view(&mut rt, ol, "li");
    let a = StateAtomic::new(&mut rt, 1);
    let b = StateAtomic::new(&mut rt, 2);
    let c = StateAtomic::new(&mut rt, 3);
    sv.push(a);
    sv.push(b);
    sv.insert(1, c);
    sv.remove(0);
    assert!(sv.items == vec![c, b]);
    sv.settle_views(&mut rt);
    rt.settle();
    for v in 0..2 {
        assert!(sv.views[v].rendered == vec![c, b]);
        assert!(sv.views[v].queue.is_empty());
    }
    assert_eq!(item_texts(&rt.document, ul.node), vec!["3", "2"]);
    assert_eq!(item_texts(&rt.document, ol.node), vec!["3", "2"]);
    assert_eq!(rt.document.nodes[ul.node.index].children.len(), 2);
}

#[test]
fn late_view_renders_snapshot() {
    let mut rt: Runtime<i64> = Runtime::new();
    let mut sv: StateVec<StateAtomic> = StateVec::with_capacity(10);
    for x in 0..10 {
        sv.push_atomic(&mut rt, x);
    }
    sv.remove(3);
    sv.pop();
    let ul: Tag<Ul> = Tag::new(&mut rt.document);
    let ul = sv.view(&mut rt, ul, "li");
    assert_eq!(
        item_texts(&rt.document, ul.node),
        vec!["0", "1", "2", "4", "5", "6", "7", "8"]
    );
    assert!(sv.views[0].queue.is_empty());
}

#[test]
fn each_view_applies_changes_in_order() {
    let mut rt: Runtime<i64> = Runtime::new();
    let mut sv: StateVec<StateAtomic> = StateVec::new();
    let ul: Tag<Ul> = Tag::new(&mut rt.document);
    sv.view(&mut rt, ul, "li");
    let x = sv.insert_atomic(&mut rt, 0, 7);
    sv.remove(0);
    assert_eq!(sv.views[0].queue.len(), 2);
    assert!(matches!(sv.views[0].queue[0], Change::Insert(0, _)));
    sv.deliver(0, &mut rt);
    assert!(sv.views[0].rendered == vec![x]);
    assert!(matches!(sv.views[0].queue[0], Change::Remove(0)));
    sv.deliver(0, &mut rt);
    assert!(sv.views[0].rendered.is_empty());
}

#[test]
fn remove_elem_by_identity() {
    let mut rt: Runtime<i64> = Runtime::new();
    let mut sv: StateVec<StateAtomic> = StateVec::with_capacity(10);
    let removable = sv.push_atomic(&mut rt, 13);
    for x in 0..3 {
        sv.push_atomic(&mut rt, x);
    }
    let same_value = StateAtomic::new(&mut rt, 13);
    assert_eq!(sv.remove_elem(same_value), Err(StateVecError::NotFound));
    assert_eq!(sv.len(), 4);
    assert_eq!(sv.remove_elem(removable), Ok(()));
    assert_eq!(sv.len(), 3);
    assert_eq!(sv.remove_elem(removable), Err(StateVecError::NotFound));
}

#[test]
fn accessors_and_pop_on_empty() {
    let mut rt: Runtime<i64> = Runtime::new();
    let mut sv: StateVec<StateAtomic> = StateVec::new();
    assert!(sv.is_empty());
    assert!(sv.get(0).is_none());
    sv.pop();
    assert!(sv.is_empty());
    let x = sv.push_atomic(&mut rt, 4);
    assert_eq!(sv.len(), 1);
    assert!(sv.get(0) == Some(x));
    assert!(sv.get(1).is_none());
    assert_eq!(x.value(&rt), 4);
}

#[test]
fn item_value_change_updates_views() {
    let mut rt: Runtime<i64> = Runtime::new();
    let mut sv: StateVec<StateAtomic> = StateVec::new();
    let x = sv.push_atomic(&mut rt, 1);
    let ul: Tag<Ul> = Tag::new(&mut rt.document);
    let ul = sv.view(&mut rt, ul, "li");
    x.put(&mut rt, 9);
    rt.settle();
    assert_eq!(item_texts(&rt.document, ul.node), vec!["9"]);
}

#[test]
fn insert_at_end_appends_one_node() {
    let mut rt: Runtime<i64> = Runtime::new();
    let mut sv: StateVec<StateAtomic> = StateVec::new();
    sv.push_atomic(&mut rt, 1);
    let ul: Tag<Ul> = Tag::new(&mut rt.document);
    let ul = sv.view(&mut rt, ul, "li");
    let before = rt.document.nodes[ul.node.index].children.clone();
    sv.insert_atomic(&mut rt, 1, 2);
    sv.settle_views(&mut rt);
    let after = rt.document.nodes[ul.node.index].children.clone();
    assert_eq!(after.len(), 2);
    assert!(after[0] == before[0]);
    assert_eq!(item_texts(&rt.document, ul.node), vec!["1", "2"]);
    assert_eq!(rt.document.nodes[after[1].index].content, "li");
}
