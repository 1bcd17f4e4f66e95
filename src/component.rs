use vstd::prelude::*;

use crate::dom::Node;
use crate::state::state_atomic::StateAtomic;
use crate::state::state_mutex::StateMutex;
use crate::tag::Tag;

verus! {

/// Something that can be placed in a page as a node: a node itself, an element,
/// or a state container (shown by a live text node).
pub trait Component {}

impl Component for Node {}

impl<T> Component for Tag<T> {}

impl Component for StateAtomic {}

impl Component for StateMutex {}

} // verus!
