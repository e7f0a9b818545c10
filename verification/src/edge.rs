//! The edge model: the successor of a node is either a fixed name or is
//! computed from the current state by a router. A router is the
//! closed-world form of a conditional function on the state: it says, as
//! a spec-level function of the state's view, which name it picks, so the
//! engine's successor selection is exact.

use vstd::prelude::*;
use crate::state::GraphState;

verus! {

/// Chooses a successor name (a node name or the end sentinel) from the
/// current state.
pub trait Router<S: GraphState> {
    /// The successor the router picks, as a function of the state's view.
    /// Verified implementations override this with the real choice; the
    /// default stands for implementations outside the verified world.
    open spec fn spec_route(&self, v: S::V) -> Seq<char> {
        Seq::<char>::empty()
    }

    /// Picks the successor for `state`.
    fn route(&self, state: &S) -> (r: String)
        ensures
            r@ == self.spec_route(state@),
    ;
}

/// Edge definition for graph transitions.
#[derive(Debug, Clone)]
pub enum Edge<R> {
    /// Direct edge to the next node.
    Direct(String),
    /// Conditional edge based on the current state.
    Conditional(R),
}

/// A router that ignores the state and always picks the same target.
#[derive(Debug, Clone)]
pub struct FixedRouter {
    /// The name this router always picks.
    pub target: String,
}

impl<S: GraphState> Router<S> for FixedRouter {
    open spec fn spec_route(&self, v: S::V) -> Seq<char> {
        self.target@
    }

    fn route(&self, state: &S) -> (r: String) {
        self.target.clone()
    }
}

} // verus!
