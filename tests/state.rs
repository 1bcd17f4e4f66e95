use valerie_core::dom::Node;
use valerie_core::html::elements::Input;
use valerie_core::{Runtime, StateAtomic, StateMutex, Tag};

fn shown(rt: &Runtime<i64>, n: Node) -> String {
    rt.document.nodes[n.index].content.clone()
}

#[test]
fn clone_is_equal_and_new_is_distinct() {
    let mut rt: Runtime<i64> = Runtime::new();
    let a = StateAtomic::new(&mut rt, 5);
    let b = a.clone();
    assert!(a == b);
    let c = StateAtomic::new(&mut rt, 5);
    assert!(a != c);
    assert_eq!(a.value(&rt), c.value(&rt));
}

#[test]
fn counter_shown_twice_converges_to_last_put() {
    let mut rt: Runtime<i64> = Runtime::new();
    let counter = StateAtomic::new(&mut rt, 0);
    let first = counter.render(&mut rt);
    let second = counter.render(&mut rt);
    assert_eq!(shown(&rt, first), "0");
    counter.put(&mut rt, 1);
    counter.put(&mut rt, 2);
    rt.settle();
    assert_eq!(shown(&rt, first), "2");
    assert_eq!(shown(&rt, second), "2");
    assert_eq!(rt.channels[counter.id].state_id, 2);
}

#[test]
fn many_puts_converge_to_final_value() {
    let mut rt: Runtime<i64> = Runtime::new();
    let c = StateAtomic::new(&mut rt, 0);
    let n = c.render(&mut rt);
    for i in 1..=50 {
        c.put(&mut rt, i * 3);
    }
    rt.settle();
    assert_eq!(shown(&rt, n), "150");
    // a second settle writes nothing
    let before = rt.document.journal.len();
    rt.settle();
    assert_eq!(rt.document.journal.len(), before);
}

#[test]
fn late_subscriber_sees_current_value_on_first_poll() {
    let mut rt: Runtime<i64> = Runtime::new();
    let c = StateAtomic::new(&mut rt, 1);
    c.put(&mut rt, 2);
    c.put(&mut rt, 3);
    c.put(&mut rt, 4);
    let n = c.render(&mut rt);
    let b = rt.bindings.len() - 1;
    assert_eq!(rt.bindings[b].seen, 0);
    assert!(rt.poll(b));
    assert_eq!(shown(&rt, n), "4");
    assert_eq!(rt.bindings[b].seen, 3);
    assert!(!rt.poll(b));
}

#[test]
fn derived_state_follows_source() {
    let mut rt: Runtime<i64> = Runtime::new();
    let counter = StateAtomic::new(&mut rt, 1);
    let (double, mut task) = StateAtomic::from(&mut rt, &counter, |x: i64| x * 2);
    assert_eq!(double.value(&rt), 2);
    let shown_double = double.render(&mut rt);
    counter.put(&mut rt, 5);
    counter.put(&mut rt, 7);
    assert!(task.poll(&mut rt));
    assert_eq!(double.value(&rt), 14);
    assert!(!task.poll(&mut rt));
    rt.settle();
    assert_eq!(shown(&rt, shown_double), "14");
    // one broadcast of the derived container per catch-up
    assert_eq!(rt.channels[double.id].state_id, 1);
}

#[test]
fn no_cross_talk_between_containers() {
    let mut rt: Runtime<i64> = Runtime::new();
    let x = StateAtomic::new(&mut rt, 10);
    let y = StateAtomic::new(&mut rt, 20);
    let nx = x.render(&mut rt);
    let ny = y.render(&mut rt);
    rt.settle();
    let start = rt.document.journal.len();
    x.put(&mut rt, 11);
    rt.settle();
    assert_eq!(rt.document.journal.len(), start + 1);
    assert!(rt.document.journal[start] == nx);
    assert_eq!(shown(&rt, ny), "20");
    assert_eq!(shown(&rt, nx), "11");
}

#[test]
fn update_rebroadcasts_without_change() {
    let mut rt: Runtime<i64> = Runtime::new();
    let c = StateAtomic::new(&mut rt, 8);
    let n = c.render(&mut rt);
    c.update(&mut rt);
    assert_eq!(rt.channels[c.id].state_id, 1);
    assert_eq!(rt.channels[c.id].stream, "8");
    rt.settle();
    assert_eq!(shown(&rt, n), "8");
}

#[test]
fn compound_assignment_is_one_broadcast_each() {
    let mut rt: Runtime<i64> = Runtime::new();
    let c = StateAtomic::new(&mut rt, 10);
    c.add_assign(&mut rt, 5);
    assert_eq!(c.value(&rt), 15);
    c.sub_assign(&mut rt, 22);
    assert_eq!(c.value(&rt), -7);
    c.mul_assign(&mut rt, 3);
    assert_eq!(c.value(&rt), -21);
    c.div_assign(&mut rt, 2);
    assert_eq!(c.value(&rt), -10);
    c.rem_assign(&mut rt, 3);
    assert_eq!(c.value(&rt), -1);
    assert_eq!(rt.channels[c.id].state_id, 5);
    assert_eq!(rt.channels[c.id].stream, "-1");
}

#[test]
fn truncating_division_and_remainder() {
    let mut rt: Runtime<i64> = Runtime::new();
    let c = StateAtomic::new(&mut rt, -7);
    c.div_assign(&mut rt, 2);
    assert_eq!(c.value(&rt), -3);
    let d = StateAtomic::new(&mut rt, -7);
    d.rem_assign(&mut rt, 2);
    assert_eq!(d.value(&rt), -1);
    let e = StateAtomic::new(&mut rt, 7);
    e.div_assign(&mut rt, -2);
    assert_eq!(e.value(&rt), -3);
    let f = StateAtomic::new(&mut rt, i64::MIN);
    f.div_assign(&mut rt, 2);
    assert_eq!(f.value(&rt), i64::MIN / 2);
}

#[test]
fn mutex_state_holds_strings() {
    let mut rt: Runtime<String> = Runtime::new();
    let m = StateMutex::new(&mut rt, String::from("App is running"));
    let n = m.render(&mut rt);
    m.put(&mut rt, String::from("Mouse button pressed"));
    assert_eq!(m.value(&rt), "Mouse button pressed");
    rt.settle();
    assert_eq!(rt.document.nodes[n.index].content, "Mouse button pressed");
    assert!(m == m.clone());
}

#[test]
fn attribute_follows_container() {
    let mut rt: Runtime<i64> = Runtime::new();
    let size = StateAtomic::new(&mut rt, 3);
    let input: Tag<Input> = Tag::new(&mut rt.document);
    assert!(input.bind_attr(&mut rt, "size", &size));
    assert_eq!(input.get_attr(&rt.document, "size"), Some(String::from("3")));
    assert!(!input.bind_attr(&mut rt, "size", &size));
    size.put(&mut rt, 12);
    assert_eq!(input.get_attr(&rt.document, "size"), Some(String::from("3")));
    rt.settle();
    assert_eq!(input.get_attr(&rt.document, "size"), Some(String::from("12")));
}

#[test]
fn derived_mutex_state_from_string() {
    let mut rt: Runtime<String> = Runtime::new();
    let s = StateMutex::new(&mut rt, String::from("This is a test."));
    let (len, mut task) = StateMutex::from(&mut rt, &s, |x: String| format!("The length is {}", x.len()));
    assert_eq!(len.value(&rt), "The length is 15");
    s.put(&mut rt, String::from("abc"));
    assert!(task.poll_cloned(&mut rt));
    assert_eq!(len.value(&rt), "The length is 3");
}

#[test]
fn mutex_compound_assignment() {
    let mut rt: Runtime<i64> = Runtime::new();
    let m = StateMutex::new(&mut rt, 7);
    m.add_assign(&mut rt, 3);
    m.mul_assign(&mut rt, -2);
    m.rem_assign(&mut rt, 6);
    assert_eq!(m.value(&rt), -2);
    assert_eq!(rt.channels[m.id].state_id, 3);
}
