//! A worked example of the state and update model: a counter with an
//! operation history and a tag collection. Each field of the state has one
//! update strategy — `count` is replaced, `history` is appended to, and
//! `tags` is merged into — and the companion update type has one variant
//! per field. This is the hand-written form of what a state companion
//! looks like for any record type.

use vstd::prelude::*;
use crate::state::{spec_apply_all, apply_updates, GraphState};

verus! {

/// Spec-level shape of a `CounterState`.
pub struct CounterStateView {
    pub count: i32,
    pub history: Seq<String>,
    pub tags: Seq<String>,
}

/// A counter with a history of the operations applied to it and a
/// collection of tags.
#[derive(Debug, Clone, PartialEq)]
pub struct CounterState {
    /// The counter value; updates replace it.
    pub count: i32,
    /// The operations applied so far; updates append to it in order.
    pub history: Vec<String>,
    /// Free-form tags; updates merge their payload into it in iteration
    /// order.
    pub tags: Vec<String>,
}

/// The update companion of `CounterState`: one variant per field.
#[derive(Debug, Clone, PartialEq)]
pub enum CounterStateUpdate {
    /// Replace `count` with the payload.
    Count(i32),
    /// Append the payload to `history`, in order.
    History(Vec<String>),
    /// Merge the payload into `tags`, in iteration order.
    Tags(Vec<String>),
}

impl View for CounterState {
    type V = CounterStateView;

    open spec fn view(&self) -> CounterStateView {
        CounterStateView { count: self.count, history: self.history@, tags: self.tags@ }
    }
}

impl GraphState for CounterState {
    type Update = CounterStateUpdate;

    open spec fn spec_apply(v: CounterStateView, u: CounterStateUpdate) -> CounterStateView {
        match u {
            CounterStateUpdate::Count(c) => CounterStateView { count: c, ..v },
            CounterStateUpdate::History(h) => (CounterStateView { history: v.history + h@, ..v }),
            CounterStateUpdate::Tags(t) => (CounterStateView { tags: v.tags + t@, ..v }),
        }
    }

    fn apply(&mut self, update: CounterStateUpdate) {
        match update {
            CounterStateUpdate::Count(c) => {
                self.count = c;
            },
            CounterStateUpdate::History(mut h) => {
                self.history.append(&mut h);
            },
            CounterStateUpdate::Tags(mut t) => {
                self.tags.append(&mut t);
            },
        }
    }

    fn clone_state(&self) -> (r: Self) {
        let r = CounterState {
            count: self.count,
            history: clone_strings(&self.history),
            tags: clone_strings(&self.tags),
        };
        r
    }
}

/// A content-equal copy of a vector of strings.
fn clone_strings(v: &Vec<String>) -> (r: Vec<String>)
    ensures
        r@ == v@,
{
    let mut r: Vec<String> = Vec::new();
    let mut i: usize = 0;
    let n = v.len();
    while i < n
        invariant
            0 <= i <= n,
            n == v@.len(),
            r@.len() == i,
            forall|j: int| 0 <= j < i ==> r@[j] == v@[j],
        decreases n - i,
    {
        r.push(v[i].clone());
        i += 1;
    }
    proof {
        assert(r@ =~= v@);
    }
    r
}

impl CounterState {
    /// A counter at `count` with no history and no tags.
    pub fn new(count: i32) -> (r: Self)
        ensures
            r@.count == count,
            r@.history =~= Seq::<String>::empty(),
            r@.tags =~= Seq::<String>::empty(),
    {
        CounterState { count, history: Vec::new(), tags: Vec::new() }
    }

    /// Applies a finite sequence of updates in order.
    pub fn apply_many(&mut self, updates: Vec<CounterStateUpdate>)
        ensures
            final(self)@ == spec_apply_all::<CounterState>(old(self)@, updates@),
    {
        apply_updates(self, updates)
    }
}

/// Strategy semantics, replace: a `Count` update sets the field to its
/// payload and leaves every other field alone.
pub proof fn lemma_replace_semantics(v: CounterStateView, c: i32)
    ensures
        CounterState::spec_apply(v, CounterStateUpdate::Count(c)) == (CounterStateView {
            count: c,
            ..v
        }),
{
}

/// Strategy semantics, append: a `History` update concatenates the prior
/// field value with the payload, in order, and leaves every other field
/// alone.
pub proof fn lemma_append_semantics(v: CounterStateView, h: Vec<String>)
    ensures
        CounterState::spec_apply(v, CounterStateUpdate::History(h)) == (CounterStateView {
            history: v.history + h@,
            ..v
        }),
{
}

/// Strategy semantics, merge: a `Tags` update extends the collection with
/// the payload's elements in iteration order, and leaves every other
/// field alone.
pub proof fn lemma_merge_semantics(v: CounterStateView, t: Vec<String>)
    ensures
        CounterState::spec_apply(v, CounterStateUpdate::Tags(t)) == (CounterStateView {
            tags: v.tags + t@,
            ..v
        }),
{
}

} // verus!
