use valerie_core::html::attributes::{Accept, Accesskey, Href};
use valerie_core::html::elements::{Button, Div, HtmlElement, ImageMap, Input, A};

#[test]
fn element_tags() {
    assert_eq!(Div::tag(), "div");
    assert_eq!(Button::tag(), "button");
    assert_eq!(ImageMap::tag(), "map");
    assert_eq!(<valerie_core::html::elements::Option as HtmlElement>::tag(), "option");
}

#[test]
fn attribute_names() {
    assert_eq!(<Input as Accept>::attr(), "accept");
    assert_eq!(<Div as Accesskey>::attr(), "accesskey");
    assert_eq!(<A as Href>::attr(), "href");
}
