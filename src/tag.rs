use vstd::prelude::*;

use core::marker::PhantomData;

use crate::dom::{shows_item, sorted_strings, Document, Node};
use crate::html::elements::{HtmlElement, Input};
use crate::input::FromText;
use crate::state::{attr_key, Runtime, StateTrait};
use crate::text::Text;

verus! {

/// An element of kind `T` in a document: a typed handle on its node.
pub struct Tag<T> {
    pub node: Node,
    pub elem_type: PhantomData<T>,
}

impl<T> Clone for Tag<T> {
    fn clone(&self) -> (r: Self)
        ensures
            r.node == self.node,
    {
        Tag { node: self.node, elem_type: PhantomData }
    }
}

impl<T: HtmlElement> Tag<T> {
    /// A new detached element whose tag is `T`'s.
    pub fn new(doc: &mut Document) -> (r: Tag<T>)
        requires
            old(doc).wf(),
            old(doc).nodes@.len() < usize::MAX,
        ensures
            final(doc).wf(),
            r.node.index == old(doc).nodes@.len(),
            final(doc).nodes@.len() == old(doc).nodes@.len() + 1,
            forall|m: int| 0 <= m < old(doc).nodes@.len() ==> #[trigger] final(doc).nodes@[m]
                == old(doc).nodes@[m],
            final(doc).is_element(r.node),
            final(doc).content_of(r.node) == T::spec_tag(),
            final(doc).children_of(r.node).len() == 0,
            final(doc).body == old(doc).body,
            final(doc).journal@ == old(doc).journal@,
    {
        let node = doc.create_element(T::tag());
        Tag { node, elem_type: PhantomData }
    }
}

impl<T> Tag<T> {
    /// Appends `component` to the element's children.
    pub fn push(self, doc: &mut Document, component: Node) -> (r: Tag<T>)
        requires
            old(doc).wf(),
            old(doc).is_element(self.node),
            old(doc).contains(component),
        ensures
            r.node == self.node,
            final(doc).wf(),
            final(doc).others_kept(old(doc), self.node),
            final(doc).is_element(self.node),
            final(doc).content_of(self.node) == old(doc).content_of(self.node),
            final(doc).children_of(self.node) == old(doc).children_of(self.node).push(component),
            final(doc).journal@ == old(doc).journal@.push(self.node),
    {
        doc.append_child(self.node, component);
        self
    }

    /// The element's node, to place it inside another element.
    pub fn into_node(self) -> (r: Node)
        ensures
            r == self.node,
    {
        self.node
    }
    /// Appends each of `components` to the element's children, in order.
    pub fn push_multiple(self, doc: &mut Document, components: Vec<Node>) -> (r: Tag<T>)
        requires
            old(doc).wf(),
            old(doc).is_element(self.node),
            forall|i: int| 0 <= i < components@.len() ==> old(doc).contains(#[trigger] components@[i]),
        ensures
            r.node == self.node,
            final(doc).wf(),
            final(doc).is_element(self.node),
            final(doc).nodes@.len() == old(doc).nodes@.len(),
            final(doc).body == old(doc).body,
            final(doc).children_of(self.node) == old(doc).children_of(self.node) + components@,
            forall|m: int| 0 <= m < old(doc).nodes@.len() && m != self.node.index ==> #[trigger] final(doc).nodes@[m]
                == old(doc).nodes@[m],
    {
        let mut i: usize = 0;
        while i < components.len()
            invariant
                i <= components@.len(),
                doc.wf(),
                doc.is_element(self.node),
                doc.nodes@.len() == old(doc).nodes@.len(),
                doc.body == old(doc).body,
                doc.children_of(self.node) == old(doc).children_of(self.node) + components@.subrange(0, i as int),
                forall|j: int| 0 <= j < components@.len() ==> old(doc).contains(#[trigger] components@[j]),
                forall|m: int| 0 <= m < old(doc).nodes@.len() && m != self.node.index ==> #[trigger] doc.nodes@[m]
                    == old(doc).nodes@[m],
            decreases components@.len() - i,
        {
            doc.append_child(self.node, components[i]);
            proof {
                assert(old(doc).children_of(self.node) + components@.subrange(0, i as int + 1) =~= (old(doc).children_of(self.node)
                    + components@.subrange(0, i as int)).push(components@[i as int]));
            }
            i = i + 1;
        }
        proof {
            assert(components@.subrange(0, components@.len() as int) =~= components@);
        }
        self
    }

    /// Appends `n` text nodes, the `i`-th holding `func(i)`.
    pub fn push_loop<F: Fn(usize) -> String>(self, doc: &mut Document, n: usize, func: F) -> (r: Tag<T>)
        requires
            old(doc).wf(),
            old(doc).is_element(self.node),
            old(doc).nodes@.len() + n < usize::MAX,
            forall|i: usize| i < n ==> func.requires((i,)),
        ensures
            r.node == self.node,
            final(doc).wf(),
            final(doc).is_element(self.node),
            final(doc).nodes@.len() == old(doc).nodes@.len() + n,
            final(doc).children_of(self.node).len() == old(doc).children_of(self.node).len() + n,
            forall|i: int| 0 <= i < old(doc).children_of(self.node).len() ==> #[trigger] final(doc).children_of(self.node)[i]
                == old(doc).children_of(self.node)[i],
            forall|i: int| 0 <= i < n ==> #[trigger] shows_item(
                final(doc),
                self.node,
                old(doc).children_of(self.node).len() + i,
                func,
                i,
            ),
    {
        doc.push_texts(self.node, func, n);
        self
    }

    /// Registers a listener of `event` on the element, in place of any earlier
    /// one; the handler itself is held by the host that dispatches events.
    pub fn on_event(self, doc: &mut Document, event: &str) -> (r: Tag<T>)
        requires
            old(doc).wf(),
            old(doc).contains(self.node),
        ensures
            r.node == self.node,
            final(doc).wf(),
            final(doc).same_but_sets(old(doc), self.node),
            final(doc).has_listener(self.node, event@),
            final(doc).journal@ == old(doc).journal@,
    {
        doc.add_listener(self.node, event);
        self
    }

    /// Unregisters the listener of `event`, if there is one.
    pub fn remove_event(&self, doc: &mut Document, event: &str)
        requires
            old(doc).wf(),
            old(doc).contains(self.node),
        ensures
            final(doc).wf(),
            final(doc).same_but_sets(old(doc), self.node),
            !final(doc).has_listener(self.node, event@),
            final(doc).journal@ == old(doc).journal@,
    {
        doc.remove_listener(self.node, event);
    }

    /// Sets the element's id.
    pub fn id(self, doc: &mut Document, id: &str) -> (r: Tag<T>)
        requires
            old(doc).wf(),
            old(doc).contains(self.node),
        ensures
            r.node == self.node,
            final(doc).wf(),
            final(doc).others_kept(old(doc), self.node),
            final(doc).nodes@[self.node.index as int].id matches Some(s) && s@ == id@,
    {
        doc.set_id(self.node, id);
        self
    }

    /// The element's id, if one was set.
    pub fn get_id(&self, doc: &Document) -> (r: Option<String>)
        requires
            doc.contains(self.node),
        ensures
            r == doc.nodes@[self.node.index as int].id,
    {
        doc.get_id(self.node)
    }

    /// Adds class `class` to the element; its classes stay in increasing order.
    pub fn class(self, doc: &mut Document, class: &str) -> (r: Tag<T>)
        requires
            old(doc).wf(),
            old(doc).contains(self.node),
        ensures
            r.node == self.node,
            final(doc).wf(),
            final(doc).same_but_sets(old(doc), self.node),
            final(doc).has_class(self.node, class@),
            forall|x: Seq<char>| x != class@ ==> (#[trigger] final(doc).has_class(self.node, x) <==> old(doc).has_class(self.node, x)),
            sorted_strings(final(doc).nodes@[self.node.index as int].classes@),
    {
        doc.insert_class(self.node, class);
        self
    }

    /// The element's classes, in increasing order.
    pub fn get_class(&self, doc: &Document) -> (r: Vec<String>)
        requires
            doc.contains(self.node),
        ensures
            r@ == doc.nodes@[self.node.index as int].classes@,
    {
        doc.get_class(self.node)
    }

    /// Removes class `class` from the element.
    pub fn rem_class(&self, doc: &mut Document, class: &str)
        requires
            old(doc).wf(),
            old(doc).contains(self.node),
        ensures
            final(doc).wf(),
            sorted_strings(final(doc).nodes@[self.node.index as int].classes@),
            final(doc).same_but_sets(old(doc), self.node),
            !final(doc).has_class(self.node, class@),
            forall|x: Seq<char>| x != class@ ==> (#[trigger] final(doc).has_class(self.node, x) <==> old(doc).has_class(self.node, x)),
    {
        doc.remove_class(self.node, class);
    }

    /// Adds class `class` when the element does not have it, removes it when it does.
    pub fn toggle_class(&self, doc: &mut Document, class: &str)
        requires
            old(doc).wf(),
            old(doc).contains(self.node),
        ensures
            final(doc).wf(),
            sorted_strings(final(doc).nodes@[self.node.index as int].classes@),
            final(doc).same_but_sets(old(doc), self.node),
            final(doc).has_class(self.node, class@) == !old(doc).has_class(self.node, class@),
            forall|x: Seq<char>| x != class@ ==> (#[trigger] final(doc).has_class(self.node, x) <==> old(doc).has_class(self.node, x)),
    {
        doc.toggle_class(self.node, class);
    }

    /// Sets attribute `key` to `value`.
    pub fn attr(self, doc: &mut Document, key: &str, value: &str) -> (r: Tag<T>)
        requires
            old(doc).wf(),
            old(doc).contains(self.node),
        ensures
            r.node == self.node,
            final(doc).wf(),
            final(doc).others_kept(old(doc), self.node),
            final(doc).attr_of(self.node, key@) == Some(value@),
            forall|k: Seq<char>| k != key@ ==> #[trigger] final(doc).attr_of(self.node, k) == old(doc).attr_of(self.node, k),
            final(doc).journal@ == if old(doc).attr_of(self.node, key@) == Some(value@) {
                old(doc).journal@
            } else {
                old(doc).journal@.push(self.node)
            },
    {
        doc.set_attr(self.node, key, value);
        self
    }

    /// The value of attribute `key`, if it is set.
    pub fn get_attr(&self, doc: &Document, key: &str) -> (r: Option<String>)
        requires
            doc.wf(),
            doc.contains(self.node),
        ensures
            r matches Some(v) ==> doc.attr_of(self.node, key@) == Some(v@),
            r is None ==> doc.attr_of(self.node, key@) is None,
    {
        doc.get_attr(self.node, key)
    }

    /// Removes attribute `key`.
    pub fn rem_attr(&self, doc: &mut Document, key: &str)
        requires
            old(doc).wf(),
            old(doc).contains(self.node),
        ensures
            final(doc).wf(),
            final(doc).others_kept(old(doc), self.node),
            final(doc).attr_of(self.node, key@) is None,
            forall|k: Seq<char>| k != key@ ==> #[trigger] final(doc).attr_of(self.node, k) == old(doc).attr_of(self.node, k),
    {
        doc.remove_attr(self.node, key);
    }
    /// Binds attribute `key` to container `state`: the attribute shows its
    /// current text and follows its changes. Returns false, changing nothing,
    /// when the attribute is bound already.
    pub fn bind_attr<V: Text, S: StateTrait>(&self, rt: &mut Runtime<V>, key: &str, state: &S) -> (r: bool)
        requires
            old(rt).wf(),
            state.spec_id() < old(rt).count(),
            old(rt).document.is_element(self.node),
        ensures
            final(rt).wf(),
            r == !exists|b: int| 0 <= b < old(rt).bindings@.len() && #[trigger] old(rt).bindings@[b].node == self.node
                && attr_key(old(rt).bindings@[b]) == Some(key@),
            !r ==> *final(rt) == *old(rt),
            r ==> final(rt).document.attr_of(self.node, key@) == Some(old(rt).text_of(state.spec_id() as int)),
            r ==> final(rt).bindings@.last().source == state.spec_id() && final(rt).bindings@.last().node == self.node,
    {
        rt.bind_attr(state.id(), self.node, key)
    }
}

impl Tag<Input> {
    /// One-way binding to `var`: registers an `input` listener; on each input
    /// event the host hands the element's text to `on_input`.
    pub fn bind<V: Text, S: StateTrait>(self, rt: &mut Runtime<V>, var: &S) -> (r: Tag<Input>)
        requires
            old(rt).wf(),
            old(rt).document.contains(self.node),
        ensures
            r.node == self.node,
            final(rt).wf(),
            final(rt).document.has_listener(self.node, "input"@),
            final(rt).document.same_but_sets(&old(rt).document, self.node),
            final(rt).values@ == old(rt).values@,
            final(rt).channels@ == old(rt).channels@,
            final(rt).bindings@ == old(rt).bindings@,
    {
        proof {
            reveal_strlit("input");
        }
        rt.document.add_listener(self.node, "input");
        proof {
            assert forall|b: int| 0 <= b < rt.bindings@.len() implies rt.binding_wf(#[trigger] rt.bindings@[b]) by {
                assert(old(rt).binding_wf(old(rt).bindings@[b]));
            }
        }
        self
    }

    /// Two-way binding to `var`: as `bind`, and the element's `value` attribute
    /// follows the container.
    pub fn double_bind<V: Text, S: StateTrait>(self, rt: &mut Runtime<V>, var: &S) -> (r: Tag<Input>)
        requires
            old(rt).wf(),
            var.spec_id() < old(rt).count(),
            old(rt).document.is_element(self.node),
        ensures
            r.node == self.node,
            final(rt).wf(),
            final(rt).document.has_listener(self.node, "input"@),
            final(rt).values@ == old(rt).values@,
            final(rt).channels@ == old(rt).channels@,
            (exists|b: int| 0 <= b < old(rt).bindings@.len() && #[trigger] old(rt).bindings@[b].node == self.node
                && attr_key(old(rt).bindings@[b]) == Some("value"@)) || final(rt).document.attr_of(self.node, "value"@)
                == Some(old(rt).text_of(var.spec_id() as int)),
    {
        proof {
            reveal_strlit("input");
            reveal_strlit("value");
        }
        rt.bind_attr(var.id(), self.node, "value");
        let ghost mid = *rt;
        rt.document.add_listener(self.node, "input");
        proof {
            assert forall|b: int| 0 <= b < rt.bindings@.len() implies rt.binding_wf(#[trigger] rt.bindings@[b]) by {
                assert(mid.binding_wf(mid.bindings@[b]));
                assert(rt.document.nodes@[rt.bindings@[b].node.index as int].attrs == mid.document.nodes@[rt.bindings@[b].node.index as int].attrs);
            }
        }
        self
    }

    /// An input event: the element now holds `text`, which is read as a value
    /// and put into `var` (one broadcast).
    pub fn on_input<V: FromText + Text, S: StateTrait>(&self, rt: &mut Runtime<V>, var: &S, text: &str)
        requires
            old(rt).wf(),
            var.spec_id() < old(rt).count(),
            old(rt).state_id_of(var.spec_id() as int) < u64::MAX,
        ensures
            final(rt).wf(),
            final(rt).is_put(old(rt), var.spec_id() as int, final(rt).value_of(var.spec_id() as int)),
            V::reads_as(text@, final(rt).value_of(var.spec_id() as int)),
    {
        let v = V::from_text(text);
        rt.put(var.id(), v);
    }

    /// An input event for a binding made with a function: `func` of the
    /// element's new text is put into `var` (one broadcast).
    pub fn on_input_with<V: Text, S: StateTrait, F: Fn(String) -> V>(&self, rt: &mut Runtime<V>, var: &S, text: &str, func: F)
        requires
            old(rt).wf(),
            var.spec_id() < old(rt).count(),
            old(rt).state_id_of(var.spec_id() as int) < u64::MAX,
            forall|s: String| func.requires((s,)),
        ensures
            final(rt).wf(),
            final(rt).is_put(old(rt), var.spec_id() as int, final(rt).value_of(var.spec_id() as int)),
            exists|s: String| s@ == text@ && func.ensures((s,), final(rt).value_of(var.spec_id() as int)),
    {
        let s = String::from_str(text);
        let ghost gs = s;
        let v = func(s);
        rt.put(var.id(), v);
        proof {
            assert(gs@ == text@ && func.ensures((gs,), rt.value_of(var.spec_id() as int)));
        }
    }
}

} // verus!
