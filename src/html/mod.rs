use vstd::prelude::*;

use crate::dom::{shows_item, Document, Node};

pub mod attributes;
pub mod elements;

verus! {

/// A page under construction: a root `div` that components are appended to.
pub struct Html {
    pub root: Node,
}

impl Html {
    /// A page with an empty root `div`.
    pub fn new(doc: &mut Document) -> (r: Html)
        requires
            old(doc).wf(),
            old(doc).nodes@.len() < usize::MAX,
        ensures
            final(doc).wf(),
            r.root.index == old(doc).nodes@.len(),
            final(doc).nodes@.len() == old(doc).nodes@.len() + 1,
            forall|m: int| 0 <= m < old(doc).nodes@.len() ==> #[trigger] final(doc).nodes@[m]
                == old(doc).nodes@[m],
            final(doc).is_element(r.root),
            final(doc).content_of(r.root) == "div"@,
            final(doc).children_of(r.root).len() == 0,
            final(doc).body == old(doc).body,
    {
        Html { root: doc.create_element("div") }
    }

    /// Appends `components` to the root, in order.
    pub fn push(self, doc: &mut Document, components: &[Node]) -> (r: Html)
        requires
            old(doc).wf(),
            old(doc).is_element(self.root),
            forall|i: int| 0 <= i < components@.len() ==> old(doc).contains(#[trigger] components@[i]),
        ensures
            r.root == self.root,
            final(doc).wf(),
            final(doc).is_element(self.root),
            final(doc).nodes@.len() == old(doc).nodes@.len(),
            final(doc).body == old(doc).body,
            final(doc).content_of(self.root) == old(doc).content_of(self.root),
            final(doc).children_of(self.root) == old(doc).children_of(self.root) + components@,
            forall|m: int| 0 <= m < old(doc).nodes@.len() && m != self.root.index ==> #[trigger] final(doc).nodes@[m]
                == old(doc).nodes@[m],
    {
        let mut i: usize = 0;
        while i < components.len()
            invariant
                i <= components@.len(),
                doc.wf(),
                doc.is_element(self.root),
                doc.nodes@.len() == old(doc).nodes@.len(),
                doc.body == old(doc).body,
                doc.content_of(self.root) == old(doc).content_of(self.root),
                doc.children_of(self.root) == old(doc).children_of(self.root) + components@.subrange(0, i as int),
                forall|j: int| 0 <= j < components@.len() ==> old(doc).contains(#[trigger] components@[j]),
                forall|m: int| 0 <= m < old(doc).nodes@.len() && m != self.root.index ==> #[trigger] doc.nodes@[m]
                    == old(doc).nodes@[m],
            decreases components@.len() - i,
        {
            doc.append_child(self.root, components[i]);
            proof {
                assert(components@.subrange(0, i as int + 1) =~= components@.subrange(0, i as int).push(components@[i as int]));
                assert(old(doc).children_of(self.root) + components@.subrange(0, i as int + 1) =~= (old(doc).children_of(self.root)
                    + components@.subrange(0, i as int)).push(components@[i as int]));
            }
            i = i + 1;
        }
        proof {
            assert(components@.subrange(0, components@.len() as int) =~= components@);
        }
        self
    }

    /// Appends `n` text nodes to the root, the `i`-th holding `func(i)`.
    pub fn push_loop<F: Fn(usize) -> String>(self, doc: &mut Document, func: F, n: usize) -> (r: Html)
        requires
            old(doc).wf(),
            old(doc).is_element(self.root),
            old(doc).nodes@.len() + n < usize::MAX,
            forall|i: usize| i < n ==> func.requires((i,)),
        ensures
            r.root == self.root,
            final(doc).wf(),
            final(doc).is_element(self.root),
            final(doc).nodes@.len() == old(doc).nodes@.len() + n,
            final(doc).body == old(doc).body,
            final(doc).children_of(self.root).len() == old(doc).children_of(self.root).len() + n,
            forall|i: int| 0 <= i < old(doc).children_of(self.root).len() ==> #[trigger] final(doc).children_of(self.root)[i]
                == old(doc).children_of(self.root)[i],
            forall|i: int| 0 <= i < n ==> #[trigger] shows_item(
                final(doc),
                self.root,
                old(doc).children_of(self.root).len() + i,
                func,
                i,
            ),
    {
        doc.push_texts(self.root, func, n);
        self
    }

    /// A new `div` that holds the page's root.
    pub fn view(&mut self, doc: &mut Document) -> (r: Node)
        requires
            old(doc).wf(),
            old(doc).contains(old(self).root),
            old(doc).nodes@.len() < usize::MAX,
        ensures
            final(doc).wf(),
            r.index == old(doc).nodes@.len(),
            final(doc).is_element(r),
            final(doc).content_of(r) == "div"@,
            final(doc).children_of(r) == seq![old(self).root],
            final(self).root == old(self).root,
            forall|m: int| 0 <= m < old(doc).nodes@.len() ==> #[trigger] final(doc).nodes@[m]
                == old(doc).nodes@[m],
            final(doc).body == old(doc).body,
    {
        let template = doc.create_element("div");
        doc.append_child(template, self.root);
        proof {
            assert(doc.children_of(template) =~= seq![self.root]);
        }
        template
    }
}

} // verus!
