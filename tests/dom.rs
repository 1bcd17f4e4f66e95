use valerie_core::dom::Document;
use valerie_core::function::{body, create_element, create_text_element, document, window};
use valerie_core::html::elements::{Div, Input};
use valerie_core::html::Html;
use valerie_core::{App, Tag};

#[test]
fn window_has_empty_body() {
    let w = window();
    let doc = document(&w);
    let b = body(doc);
    assert_eq!(doc.nodes[b.index].content, "body");
    assert!(doc.nodes[b.index].children.is_empty());
}

#[test]
fn create_nodes() {
    let mut doc = Document::new();
    let e = create_element(&mut doc, "h1");
    let t = create_text_element(&mut doc, "Hello World");
    doc.append_child(e, t);
    assert_eq!(doc.nodes[e.index].content, "h1");
    assert_eq!(doc.nodes[t.index].content, "Hello World");
    assert!(doc.nodes[e.index].children == vec![t]);
    assert_eq!(doc.journal.len(), 1);
}

#[test]
fn attributes_set_get_remove() {
    let mut doc = Document::new();
    let h: Tag<Div> = Tag::new(&mut doc);
    let h = h.attr(&mut doc, "id", "hello-world");
    assert_eq!(h.get_attr(&doc, "id"), Some(String::from("hello-world")));
    let writes = doc.journal.len();
    let h = h.attr(&mut doc, "id", "hello-world");
    assert_eq!(doc.journal.len(), writes);
    h.rem_attr(&mut doc, "id");
    assert_eq!(h.get_attr(&doc, "id"), None);
    assert_eq!(doc.journal.len(), writes + 1);
}

#[test]
fn classes_and_id() {
    let mut doc = Document::new();
    let i: Tag<Input> = Tag::new(&mut doc);
    let i = i.class(&mut doc, "text-type").class(&mut doc, "wide").id(&mut doc, "name");
    assert_eq!(i.get_class(&doc), vec!["text-type", "wide"]);
    assert_eq!(i.get_id(&doc), Some(String::from("name")));
    i.toggle_class(&mut doc, "text-type");
    assert_eq!(i.get_class(&doc), vec!["wide"]);
    i.toggle_class(&mut doc, "text-type");
    i.rem_class(&mut doc, "wide");
    assert_eq!(i.get_class(&doc), vec!["text-type"]);
}

#[test]
fn events_register_and_remove() {
    let mut doc = Document::new();
    let b: Tag<Div> = Tag::new(&mut doc);
    let b = b.on_event(&mut doc, "click").on_event(&mut doc, "mouseover");
    assert_eq!(doc.nodes[b.node.index].listeners, vec!["click", "mouseover"]);
    b.remove_event(&mut doc, "click");
    assert_eq!(doc.nodes[b.node.index].listeners, vec!["mouseover"]);
}

#[test]
fn app_mounts_start_route_in_place() {
    let mut doc = Document::new();
    let home = create_element(&mut doc, "h1");
    let about = create_element(&mut doc, "h2");
    let mut app = App::new();
    app.push("home", home).push("about", about);
    app.start("home");
    app.render(&mut doc);
    assert!(doc.nodes[doc.body.index].children == vec![home]);
    app.start("about");
    app.render(&mut doc);
    assert!(doc.nodes[doc.body.index].children == vec![about]);
}

#[test]
fn render_single_replaces_mounted_root() {
    let mut doc = Document::new();
    let first = create_element(&mut doc, "div");
    let second = create_element(&mut doc, "p");
    App::render_single(&mut doc, first);
    App::render_single(&mut doc, second);
    assert!(doc.nodes[doc.body.index].children == vec![second]);
}

#[test]
fn html_builder_pushes_and_loops() {
    let mut doc = Document::new();
    let a = create_text_element(&mut doc, "a");
    let mut page = Html::new(&mut doc).push(&mut doc, &[a]).push_loop(&mut doc, |i| format!("item {}", i), 3);
    let root = page.root;
    let kids: Vec<String> = doc.nodes[root.index].children.iter().map(|c| doc.nodes[c.index].content.clone()).collect();
    assert_eq!(kids, vec!["a", "item 0", "item 1", "item 2"]);
    let template = page.view(&mut doc);
    assert_eq!(doc.nodes[template.index].content, "div");
    assert!(doc.nodes[template.index].children == vec![root]);
}

#[test]
fn tag_push_loop_and_multiple() {
    let mut doc = Document::new();
    let a = create_text_element(&mut doc, "Hello, ");
    let b = create_text_element(&mut doc, "World!");
    let d: Tag<Div> = Tag::new(&mut doc);
    let d = d.push_multiple(&mut doc, vec![a, b]).push_loop(&mut doc, 2, |x| format!("{}", x));
    let kids: Vec<String> = doc.nodes[d.node.index].children.iter().map(|c| doc.nodes[c.index].content.clone()).collect();
    assert_eq!(kids, vec!["Hello, ", "World!", "0", "1"]);
}

#[test]
fn classes_kept_sorted() {
    let mut doc = Document::new();
    let d: Tag<Div> = Tag::new(&mut doc);
    let d = d.class(&mut doc, "zeta").class(&mut doc, "alpha").class(&mut doc, "mid").class(&mut doc, "alpha");
    assert_eq!(d.get_class(&doc), vec!["alpha", "mid", "zeta"]);
    d.toggle_class(&mut doc, "beta");
    assert_eq!(d.get_class(&doc), vec!["alpha", "beta", "mid", "zeta"]);
    d.toggle_class(&mut doc, "beta");
    assert_eq!(d.get_class(&doc), vec!["alpha", "mid", "zeta"]);
}
