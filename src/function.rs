use vstd::prelude::*;

use crate::dom::{Document, Node};

verus! {

/// Whether `name` is a tag name that an element can be created with: an ASCII
/// letter, then ASCII letters, digits and hyphens.
pub open spec fn valid_tag_name(name: Seq<char>) -> bool {
    &&& name.len() > 0
    &&& ('a' <= name[0] <= 'z' || 'A' <= name[0] <= 'Z')
    &&& forall|i: int| 0 <= i < name.len() ==> {
        let c = #[trigger] name[i];
        'a' <= c <= 'z' || 'A' <= c <= 'Z' || '0' <= c <= '9' || c == '-'
    }
}

/// The top-level context of a page: it owns the page's document.
pub struct Window {
    pub document: Document,
}

/// A fresh window, whose document holds an empty body.
pub fn window() -> (r: Window)
    ensures
        r.document.wf(),
        r.document.nodes@.len() == 1,
        r.document.is_element(r.document.body),
        r.document.content_of(r.document.body) == "body"@,
        r.document.children_of(r.document.body).len() == 0,
        r.document.journal@.len() == 0,
{
    Window { document: Document::new() }
}

/// The document of window `w`.
pub fn document(w: &Window) -> (r: &Document)
    ensures
        r == &w.document,
{
    &w.document
}

/// Creates a detached element with tag `name` in `doc`; the name must be a
/// valid tag name.
pub fn create_element(doc: &mut Document, name: &str) -> (r: Node)
    requires
        valid_tag_name(name@),
        old(doc).wf(),
        old(doc).nodes@.len() < usize::MAX,
    ensures
        final(doc).wf(),
        r.index == old(doc).nodes@.len(),
        final(doc).nodes@ == old(doc).nodes@.push(final(doc).nodes@[r.index as int]),
        final(doc).is_element(r),
        final(doc).content_of(r) == name@,
        final(doc).children_of(r).len() == 0,
        final(doc).body == old(doc).body,
        final(doc).journal@ == old(doc).journal@,
{
    let r = doc.create_element(name);
    proof {
        assert(doc.nodes@ =~= old(doc).nodes@.push(doc.nodes@[r.index as int]));
    }
    r
}

/// Creates a detached text node holding `text` in `doc`.
pub fn create_text_element(doc: &mut Document, text: &str) -> (r: Node)
    requires
        old(doc).wf(),
        old(doc).nodes@.len() < usize::MAX,
    ensures
        final(doc).wf(),
        r.index == old(doc).nodes@.len(),
        final(doc).nodes@ == old(doc).nodes@.push(final(doc).nodes@[r.index as int]),
        final(doc).is_text(r),
        final(doc).content_of(r) == text@,
        final(doc).children_of(r).len() == 0,
        final(doc).body == old(doc).body,
        final(doc).journal@ == old(doc).journal@,
{
    let r = doc.create_text_node(text);
    proof {
        assert(doc.nodes@ =~= old(doc).nodes@.push(doc.nodes@[r.index as int]));
    }
    r
}

/// The body of `doc`, where pages are mounted.
pub fn body(doc: &Document) -> (r: Node)
    ensures
        r == doc.body,
{
    doc.body
}

} // verus!
