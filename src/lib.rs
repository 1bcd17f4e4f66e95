//! A reactive presentation core without a virtual DOM.
//!
//! State containers hold values and broadcast the text of each new value with a
//! state id; every display of a container is a text node that catches up with the
//! latest broadcast on its turn. A `StateVec` sends each structural change to
//! every view that renders it, and each view replays the changes in order on its
//! own shadow list of nodes.
//!
//! The presentation tree is a `Document` held in memory; every write to a node is
//! recorded in its journal, which a host replays onto a real tree.
//!
//! A `Store` keeps objects by id, each with where its value stands, and sends a
//! notification that formatted displays of the object follow.

use vstd::prelude::*;

pub mod app;
pub mod component;
pub mod dom;
pub mod function;
pub mod html;
pub mod input;
pub mod order;
pub mod state;
pub mod store;
pub mod tag;
pub mod text;

pub use app::App;
pub use component::Component;
pub use dom::{Document, Node};
pub use state::state_atomic::StateAtomic;
pub use state::state_mutex::StateMutex;
pub use state::state_vec::StateVec;
pub use state::{Channel, Runtime, StateTrait};
pub use tag::Tag;

verus! {

} // verus!
