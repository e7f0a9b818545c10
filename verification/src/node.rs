//! The node contract and the two standard adapters. A node is a named
//! unit of work that takes the execution context and the current state and
//! hands back either a full replacement state or a sequence of updates.
//! Because a node may keep private state of its own across attempts (a
//! retry counter, a cache), `process` takes the node by mutable reference;
//! its name must stay stable. This is a deliberate choice: verified code
//! has no interior mutability to offer such nodes behind shared
//! references. A workflow whose nodes are shared between concurrent runs
//! wants them behind shared references instead; that model lives with the
//! asynchronous shell around this library.

use vstd::prelude::*;
use crate::context::Context;
use crate::error::NodeError;
use crate::state::{GraphState, NodeOutput};

verus! {

/// The unit of work a graph wires together: a stable name and a
/// processing step from context and state to a node output.
pub trait Node<S: GraphState> {
    /// The node's name, as a spec value. Verified implementations
    /// override this with the real name; the default stands for
    /// implementations outside the verified world.
    open spec fn spec_name(&self) -> Seq<char> {
        Seq::<char>::empty()
    }

    /// Whether the node value is fit to process. The two standard
    /// adapters always are; a built graph acting as a node is fit when it
    /// is well formed.
    open spec fn spec_valid(&self) -> bool {
        true
    }

    /// The name under which the node is wired into a graph.
    fn name(&self) -> (r: &str)
        ensures
            r@ == self.spec_name(),
    ;

    /// Processes the current state. The node may fail, and may keep
    /// private state of its own; its name never changes and it stays fit.
    fn process(&mut self, ctx: &Context, state: S) -> (r: Result<NodeOutput<S>, NodeError>)
        requires
            old(self).spec_valid(),
            ctx.wf(),
        ensures
            final(self).spec_name() == old(self).spec_name(),
            final(self).spec_valid(),
    ;
}

/// A node backed by a plain function (or closure) from context and state
/// to a node output.
#[verifier::reject_recursive_types(S)]
pub struct FunctionNode<S, F> where S: GraphState, F: Fn(&Context, S) -> Result<
    NodeOutput<S>,
    NodeError,
> {
    name: String,
    f: F,
    _phantom: core::marker::PhantomData<S>,
}

impl<S, F> FunctionNode<S, F> where S: GraphState, F: Fn(&Context, S) -> Result<
    NodeOutput<S>,
    NodeError,
> {
    /// The backing function can be called on any context and state.
    #[verifier::type_invariant]
    spec fn callable(self) -> bool {
        forall|c: &Context, s: S| #[trigger] call_requires(self.f, (c, s))
    }

    /// Spec-level access to the wrapped function.
    pub closed spec fn spec_f(&self) -> F {
        self.f
    }

    /// Wraps `f` as a node named `name`.
    pub fn new(name: String, f: F) -> (r: Self)
        requires
            forall|c: &Context, s: S| #[trigger] call_requires(f, (c, s)),
        ensures
            r.spec_name() == name@,
            r.spec_f() == f,
    {
        FunctionNode { name, f, _phantom: core::marker::PhantomData }
    }
}

impl<S, F> Node<S> for FunctionNode<S, F> where S: GraphState, F: Fn(&Context, S) -> Result<
    NodeOutput<S>,
    NodeError,
> {
    closed spec fn spec_name(&self) -> Seq<char> {
        self.name@
    }

    open spec fn spec_valid(&self) -> bool {
        true
    }

    fn name(&self) -> (r: &str) {
        self.name.as_str()
    }

    /// Invokes the wrapped function once and hands its result back
    /// unchanged: the adapter adds no retry, timeout or state handling of
    /// its own.
    fn process(&mut self, ctx: &Context, state: S) -> (r: Result<NodeOutput<S>, NodeError>)
        ensures
            final(self).spec_f() == old(self).spec_f(),
            call_ensures(old(self).spec_f(), (ctx, state), r),
    {
        proof {
            use_type_invariant(&*self);
        }
        (self.f)(ctx, state)
    }
}

/// A node that binds a shared receiver and a method on it: the adapter
/// invokes `method(&receiver, ctx, state)`.
#[verifier::reject_recursive_types(S)]
pub struct MethodNode<T, S, F> where S: GraphState, F: Fn(&T, &Context, S) -> Result<
    NodeOutput<S>,
    NodeError,
> {
    name: String,
    instance: T,
    method: F,
    _phantom: core::marker::PhantomData<S>,
}

impl<T, S, F> MethodNode<T, S, F> where S: GraphState, F: Fn(&T, &Context, S) -> Result<
    NodeOutput<S>,
    NodeError,
> {
    /// The bound method can be called on any receiver, context and state.
    #[verifier::type_invariant]
    spec fn callable(self) -> bool {
        forall|t: &T, c: &Context, s: S| #[trigger] call_requires(self.method, (t, c, s))
    }

    /// Spec-level access to the bound method.
    pub closed spec fn spec_method(&self) -> F {
        self.method
    }

    /// Spec-level access to the bound receiver.
    pub closed spec fn spec_instance(&self) -> T {
        self.instance
    }

    /// Binds `method` on `instance` as a node named `name`.
    pub fn new(name: String, instance: T, method: F) -> (r: Self)
        requires
            forall|t: &T, c: &Context, s: S| #[trigger] call_requires(method, (t, c, s)),
        ensures
            r.spec_name() == name@,
            r.spec_method() == method,
            r.spec_instance() == instance,
    {
        MethodNode { name, instance, method, _phantom: core::marker::PhantomData }
    }
}

impl<T, S, F> Node<S> for MethodNode<T, S, F> where S: GraphState, F: Fn(&T, &Context, S) -> Result<
    NodeOutput<S>,
    NodeError,
> {
    closed spec fn spec_name(&self) -> Seq<char> {
        self.name@
    }

    open spec fn spec_valid(&self) -> bool {
        true
    }

    fn name(&self) -> (r: &str) {
        self.name.as_str()
    }

    /// Invokes the bound method once against the bound receiver and hands
    /// its result back unchanged.
    fn process(&mut self, ctx: &Context, state: S) -> (r: Result<NodeOutput<S>, NodeError>)
        ensures
            final(self).spec_method() == old(self).spec_method(),
            final(self).spec_instance() == old(self).spec_instance(),
            call_ensures(
                old(self).spec_method(),
                (&old(self).spec_instance(), ctx, state),
                r,
            ),
    {
        proof {
            use_type_invariant(&*self);
        }
        (self.method)(&self.instance, ctx, state)
    }
}

} // verus!
