//! Per-run execution context: a trace identifier, the trace identifier of
//! the parent step if any, and free-form string metadata. The engine clones
//! the context at each node boundary; on retry attempts beyond the first it
//! substitutes a "next node context" whose parent is the previous trace
//! identifier and whose trace identifier is freshly generated, so tracing
//! systems can tell attempts apart.

use vstd::prelude::*;
use crate::registry::Registry;

verus! {

/// Spec-level shape of a context.
pub struct ContextView {
    pub trace_id: Seq<char>,
    pub parent_trace_id: Option<Seq<char>>,
    pub metadata: Map<Seq<char>, String>,
}

/// Context for node execution.
#[derive(Debug)]
pub struct Context {
    /// Parent trace identifier.
    pub parent_trace_id: Option<String>,
    /// Unique identifier for tracing.
    pub trace_id: String,
    /// Additional metadata.
    pub metadata: Registry<String>,
}

impl View for Context {
    type V = ContextView;

    open spec fn view(&self) -> ContextView {
        ContextView {
            trace_id: self.trace_id@,
            parent_trace_id: match self.parent_trace_id {
                Some(p) => Some(p@),
                None => None,
            },
            metadata: self.metadata@,
        }
    }
}

/// The context that a retry attempt gets: same metadata, the previous
/// trace identifier as parent, and a fresh trace identifier `id`.
pub open spec fn spec_next_context(v: ContextView, id: Seq<char>) -> ContextView {
    ContextView { trace_id: id, parent_trace_id: Some(v.trace_id), metadata: v.metadata }
}

/// A retry context always points back at the context it came from, and
/// carries its metadata unchanged, whatever the fresh identifier is.
pub proof fn lemma_next_context_links(v: ContextView, id: Seq<char>)
    ensures
        spec_next_context(v, id).parent_trace_id == Some(v.trace_id),
        spec_next_context(v, id).metadata == v.metadata,
{
}

/// Relies on `uuid::Uuid::new_v4` and its string rendering: a freshly
/// generated random version-4 UUID in hyphenated form. Nothing is assumed
/// of the value, since it is random. The call aborts only if the
/// operating system's source of randomness fails, an environmental
/// failure of the same kind as running out of memory.
#[verifier::external_body]
fn fresh_trace_id() -> (r: String) {
    uuid::Uuid::new_v4().to_string()
}

impl Context {
    /// The metadata table is well formed.
    pub open spec fn wf(&self) -> bool {
        self.metadata.wf()
    }

    /// A context with the given trace identifier, no parent and no
    /// metadata.
    pub fn new(trace_id: String) -> (r: Self)
        ensures
            r@.trace_id == trace_id@,
            r@.parent_trace_id is None,
            r@.metadata =~= Map::<Seq<char>, String>::empty(),
            r.wf(),
    {
        Context { parent_trace_id: None, trace_id, metadata: Registry::new() }
    }

    /// The same context with the parent trace identifier set.
    pub fn with_parent_trace_id(self, parent_trace_id: String) -> (r: Self)
        ensures
            r@ == (ContextView { parent_trace_id: Some(parent_trace_id@), ..self@ }),
            self.wf() ==> r.wf(),
    {
        Context { parent_trace_id: Some(parent_trace_id), ..self }
    }

    /// The same context with one more metadata entry; an existing key is
    /// overwritten.
    pub fn with_metadata(self, key: String, value: String) -> (r: Self)
        requires
            self.wf(),
        ensures
            r@ == (ContextView { metadata: self@.metadata.insert(key@, value), ..self@ }),
            r.wf(),
    {
        let mut md = self.metadata;
        md.insert(key, value);
        Context { metadata: md, ..self }
    }

    /// The context for the next retry attempt: the parent becomes this
    /// context's trace identifier and a fresh trace identifier is drawn
    /// (from the operating system's randomness; see `fresh_trace_id`).
    pub fn next_node_context(&self) -> (r: Self)
        requires
            self.wf(),
        ensures
            r@ == spec_next_context(self@, r@.trace_id),
            r.wf(),
    {
        Context {
            parent_trace_id: Some(self.trace_id.clone()),
            trace_id: fresh_trace_id(),
            metadata: self.metadata.duplicate(),
        }
    }
}

impl Clone for Context {
    /// A clone keeps the whole context, metadata included.
    fn clone(&self) -> (r: Self)
        ensures
            self.wf() ==> r@ == self@,
            r.wf(),
    {
        Context {
            parent_trace_id: match &self.parent_trace_id {
                Some(p) => Some(p.clone()),
                None => None,
            },
            trace_id: self.trace_id.clone(),
            metadata: self.metadata.duplicate(),
        }
    }
}

impl Default for Context {
    /// A context with a freshly generated trace identifier (from the
    /// operating system's randomness; see `fresh_trace_id`).
    fn default() -> (r: Self)
        ensures
            r@.parent_trace_id is None,
            r@.metadata =~= Map::<Seq<char>, String>::empty(),
            r.wf(),
    {
        Context::new(fresh_trace_id())
    }
}

} // verus!
