//! The state and update model. A workflow state type designates an update
//! sum type with one variant per mutable field; applying an update mutates
//! the state according to the field's strategy (replace, append or merge),
//! and applying a sequence of updates is the left fold of single
//! application. Nodes describe their effect as either a full replacement
//! state or an ordered sequence of such updates.

use vstd::prelude::*;

verus! {

/// The contract a workflow state type meets: a designated update type, a
/// per-update transition on the state's view, and in-place application
/// that follows it.
pub trait GraphState: View + Sized {
    /// The update sum type of this state.
    type Update;

    /// What applying one update does, at the level of the state's view.
    spec fn spec_apply(v: Self::V, u: Self::Update) -> Self::V;

    /// Applies one update in place.
    fn apply(&mut self, update: Self::Update)
        ensures
            final(self)@ == Self::spec_apply(old(self)@, update),
    ;

    /// A value-preserving copy. The engine re-feeds a copy of the same
    /// state to every attempt of a node step.
    fn clone_state(&self) -> (r: Self)
        ensures
            r@ == self@,
    ;

}

/// Applies a finite sequence of updates in order, one `apply` at a time:
/// the `apply_many` operation of the state and update model, as a free
/// function so that it is available for every state type.
pub fn apply_updates<S: GraphState>(state: &mut S, updates: Vec<S::Update>)
    ensures
        final(state)@ == spec_apply_all::<S>(old(state)@, updates@),
{
    let mut us = updates;
    let ghost all = us@;
    let ghost v0 = state@;
    while us.len() > 0
        invariant
            spec_apply_all::<S>(state@, us@) == spec_apply_all::<S>(v0, all),
        decreases us.len(),
    {
        let ghost pre = us@;
        let u = us.remove(0);
        proof {
            assert(us@ =~= pre.drop_first());
        }
        state.apply(u);
    }
}

/// The left fold of `spec_apply` over a sequence of updates.
pub open spec fn spec_apply_all<S: GraphState>(v: S::V, us: Seq<S::Update>) -> S::V
    decreases us.len(),
{
    if us.len() == 0 {
        v
    } else {
        spec_apply_all::<S>(S::spec_apply(v, us[0]), us.drop_first())
    }
}

/// Identity of empty updates: applying an empty update sequence leaves
/// the state exactly as it was.
pub proof fn lemma_empty_updates_identity<S: GraphState>(v: S::V)
    ensures
        spec_apply_all::<S>(v, Seq::<S::Update>::empty()) == v,
{
}

/// Applying one more update at the end applies it to the folded state.
pub proof fn lemma_apply_all_push<S: GraphState>(v: S::V, us: Seq<S::Update>, u: S::Update)
    ensures
        spec_apply_all::<S>(v, us.push(u)) == S::spec_apply(spec_apply_all::<S>(v, us), u),
    decreases us.len(),
{
    if us.len() == 0 {
        assert(us.push(u)[0] == u);
        assert(us.push(u).drop_first() =~= Seq::<S::Update>::empty());
        assert(spec_apply_all::<S>(v, us.push(u)) == spec_apply_all::<S>(
            S::spec_apply(v, u),
            us.push(u).drop_first(),
        ));
        assert(spec_apply_all::<S>(S::spec_apply(v, u), Seq::<S::Update>::empty())
            == S::spec_apply(v, u));
        assert(spec_apply_all::<S>(v, us) == v);
    } else {
        assert(us.push(u)[0] == us[0]);
        assert(us.push(u).drop_first() =~= us.drop_first().push(u));
        lemma_apply_all_push::<S>(S::spec_apply(v, us[0]), us.drop_first(), u);
        assert(spec_apply_all::<S>(v, us.push(u)) == spec_apply_all::<S>(
            S::spec_apply(v, us[0]),
            us.drop_first().push(u),
        ));
        assert(spec_apply_all::<S>(v, us) == spec_apply_all::<S>(
            S::spec_apply(v, us[0]),
            us.drop_first(),
        ));
    }
}

/// Fold equivalence: applying a sequence of updates is the left fold of
/// single application over that sequence.
pub proof fn lemma_fold_equivalence<S: GraphState>(v: S::V, us: Seq<S::Update>)
    ensures
        spec_apply_all::<S>(v, us) == us.fold_left(v, |acc: S::V, u: S::Update| S::spec_apply(acc, u)),
    decreases us.len(),
{
    let f = |acc: S::V, u: S::Update| S::spec_apply(acc, u);
    if us.len() == 0 {
    } else {
        let front = us.drop_last();
        let last = us.last();
        lemma_fold_equivalence::<S>(v, front);
        lemma_apply_all_push::<S>(v, front, last);
        assert(us =~= front.push(last));
        assert(us.fold_left(v, f) == f(front.fold_left(v, f), last));
    }
}

/// What a node hands back: a complete replacement state, or a finite,
/// possibly empty, ordered sequence of updates.
pub enum NodeOutput<S: GraphState> {
    /// The node produced an entirely new state.
    Full(S),
    /// The node produced zero or more updates to the existing state.
    Updates(Vec<S::Update>),
}

/// What folding a node's output into the current state yields: a full
/// output replaces the state, an update sequence is applied in order.
pub open spec fn spec_fold_output<S: GraphState>(v: S::V, out: NodeOutput<S>) -> S::V {
    match out {
        NodeOutput::Full(s) => s@,
        NodeOutput::Updates(us) => spec_apply_all::<S>(v, us@),
    }
}

/// The result of one node step.
pub type NodeResult<S> = Result<NodeOutput<S>, crate::error::NodeError>;

/// Folding an empty update sequence is the identity on the state.
pub proof fn lemma_fold_empty_updates<S: GraphState>(v: S::V, out: NodeOutput<S>)
    requires
        out matches NodeOutput::Updates(us) && us@.len() == 0,
    ensures
        spec_fold_output::<S>(v, out) == v,
{
}

} // verus!
