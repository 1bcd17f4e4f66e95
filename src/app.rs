use vstd::prelude::*;

use crate::dom::{Document, Node};

verus! {

/// A page of the app: its route and the root node that it shows.
pub struct Route {
    pub path: String,
    pub page: Node,
}

/// The pages of an app, by route, and the route shown first.
pub struct App {
    pub routes: Vec<Route>,
    pub start: Option<String>,
}

/// Whether a page of `routes` has route `path`.
pub open spec fn has_route(routes: Seq<Route>, path: Seq<char>) -> bool {
    exists|i: int| 0 <= i < routes.len() && (#[trigger] routes[i]).path@ == path
}

/// Mounts `page` as the only child of the body: in place of the body's first
/// child when it has one, else appended.
fn mount(doc: &mut Document, page: Node)
    requires
        old(doc).wf(),
        old(doc).contains(page),
    ensures
        final(doc).wf(),
        final(doc).others_kept(old(doc), old(doc).body),
        final(doc).is_element(final(doc).body),
        final(doc).children_of(final(doc).body) == if old(doc).children_of(old(doc).body).len() > 0 {
            old(doc).children_of(old(doc).body).update(0, page)
        } else {
            seq![page]
        },
{
    let b = doc.body;
    if doc.nodes[b.index].children.len() > 0 {
        doc.replace_child(b, 0, page);
    } else {
        doc.append_child(b, page);
        proof {
            assert(doc.children_of(b) =~= seq![page]);
        }
    }
}

impl App {
    /// An app with no page.
    pub fn new() -> (r: App)
        ensures
            r.routes@.len() == 0,
            r.start is None,
    {
        App { routes: Vec::new(), start: None }
    }

    /// Adds page `component` under `route`, which becomes the starting route.
    /// Two pages cannot share a route.
    pub fn push(&mut self, route: &str, component: Node) -> (r: &mut App)
        requires
            !has_route(old(self).routes@, route@),
        ensures
            r.routes@.len() == old(self).routes@.len() + 1,
            forall|i: int| 0 <= i < old(self).routes@.len() ==> #[trigger] r.routes@[i] == old(self).routes@[i],
            r.routes@.last().path@ == route@,
            r.routes@.last().page == component,
            r.start matches Some(s) && s@ == route@,
            *final(self) == *final(r),
    {
        self.routes.push(Route { path: String::from_str(route), page: component });
        self.start = Some(String::from_str(route));
        self
    }

    /// Makes `start` the route that is shown.
    pub fn start(&mut self, start: &str) -> (r: &mut App)
        ensures
            r.routes@ == old(self).routes@,
            r.start matches Some(s) && s@ == start@,
            *final(self) == *final(r),
    {
        self.start = Some(String::from_str(start));
        self
    }

    /// The position of the page with route `path`.
    fn find(&self, path: &String) -> (r: Option<usize>)
        ensures
            match r {
                Some(i) => i < self.routes@.len() && self.routes@[i as int].path@ == path@
                    && forall|j: int| 0 <= j < i ==> (#[trigger] self.routes@[j]).path@ != path@,
                None => !has_route(self.routes@, path@),
            },
    {
        let mut i: usize = 0;
        while i < self.routes.len()
            invariant
                i <= self.routes@.len(),
                forall|j: int| 0 <= j < i ==> (#[trigger] self.routes@[j]).path@ != path@,
            decreases self.routes@.len() - i,
        {
            if self.routes[i].path == *path {
                return Some(i);
            }
            i = i + 1;
        }
        None
    }

    /// Mounts the page of the first route named as the starting route into the
    /// body of `doc`, in place of what was mounted before.
    pub fn render(&self, doc: &mut Document)
        requires
            old(doc).wf(),
            self.start matches Some(s) && has_route(self.routes@, s@),
            forall|i: int| 0 <= i < self.routes@.len() ==> old(doc).contains(#[trigger] self.routes@[i].page),
        ensures
            final(doc).wf(),
            final(doc).others_kept(old(doc), old(doc).body),
            exists|i: int| 0 <= i < self.routes@.len() && (#[trigger] self.routes@[i]).path@ == self.start->0@
                && (forall|j: int| 0 <= j < i ==> (#[trigger] self.routes@[j]).path@ != self.start->0@)
                && final(doc).children_of(final(doc).body) == if old(doc).children_of(old(doc).body).len() > 0 {
                    old(doc).children_of(old(doc).body).update(0, self.routes@[i].page)
                } else {
                    seq![self.routes@[i].page]
                },
    {
        let start = self.start.as_ref().unwrap();
        match self.find(start) {
            Some(i) => {
                mount(doc, self.routes[i].page);
            },
            None => {},
        }
    }

    /// Mounts `function` into the body of `doc`, in place of what was mounted before.
    pub fn render_single(doc: &mut Document, function: Node)
        requires
            old(doc).wf(),
            old(doc).contains(function),
        ensures
            final(doc).wf(),
            final(doc).others_kept(old(doc), old(doc).body),
            final(doc).children_of(final(doc).body) == if old(doc).children_of(old(doc).body).len() > 0 {
                old(doc).children_of(old(doc).body).update(0, function)
            } else {
                seq![function]
            },
    {
        mount(doc, function)
    }
}

} // verus!
