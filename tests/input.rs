use valerie_core::html::elements::Input;
use valerie_core::input::{parse_decimal, FromText};
use valerie_core::{Runtime, StateAtomic, StateMutex, Tag};

#[test]
fn parse_decimal_like_str_parse() {
    for s in ["0", "42", "-42", "+7", "007", "-0", "9223372036854775807", "-9223372036854775808"] {
        assert_eq!(parse_decimal(s), s.parse::<i64>().ok(), "{}", s);
    }
    for s in ["", "-", "+", "4 2", " 1", "1 ", "--1", "+-1", "12a", "9223372036854775808", "-9223372036854775809", "99999999999999999999"] {
        assert_eq!(parse_decimal(s), None, "{}", s);
    }
}

#[test]
fn text_read_as_value_or_default() {
    assert_eq!(<i64 as FromText>::from_text("15"), 15);
    assert_eq!(<i64 as FromText>::from_text("abc"), 0);
    assert_eq!(<String as FromText>::from_text("abc"), "abc");
}

#[test]
fn input_binding_puts_parsed_value() {
    let mut rt: Runtime<i64> = Runtime::new();
    let state = StateAtomic::new(&mut rt, 0);
    let shown = state.render(&mut rt);
    let input: Tag<Input> = Tag::new(&mut rt.document);
    let input = input.bind(&mut rt, &state);
    assert_eq!(rt.document.nodes[input.node.index].listeners, vec!["input"]);
    input.on_input(&mut rt, &state, "12");
    assert_eq!(state.value(&rt), 12);
    input.on_input(&mut rt, &state, "twelve");
    assert_eq!(state.value(&rt), 0);
    rt.settle();
    assert_eq!(rt.document.nodes[shown.index].content, "0");
}

#[test]
fn double_binding_sets_value_attribute() {
    let mut rt: Runtime<String> = Runtime::new();
    let state = StateMutex::new(&mut rt, String::new());
    let first: Tag<Input> = Tag::new(&mut rt.document);
    let first = first.double_bind(&mut rt, &state);
    let second: Tag<Input> = Tag::new(&mut rt.document);
    let second = second.double_bind(&mut rt, &state);
    first.on_input(&mut rt, &state, "hello");
    rt.settle();
    assert_eq!(second.get_attr(&rt.document, "value"), Some(String::from("hello")));
    assert_eq!(first.get_attr(&rt.document, "value"), Some(String::from("hello")));
}

#[test]
fn input_with_function() {
    let mut rt: Runtime<usize> = Runtime::new();
    let state = StateAtomic::new(&mut rt, 0usize);
    let input: Tag<Input> = Tag::new(&mut rt.document);
    input.on_input_with(&mut rt, &state, "four", |s: String| s.len());
    assert_eq!(state.value(&rt), 4);
}
