//! The error taxonomy of the runtime. Tool errors come out of collaborator
//! tools, node errors out of a single node step, and graph errors out of a
//! whole run. Each error renders to a diagnostic line through `message`,
//! and the rendering is pinned down by a spec function so that wrapped
//! errors (a subgraph failing inside an outer run) keep an exact contract.

use vstd::prelude::*;
use vstd::string::StringExecFns;

verus! {

/// Error raised by a collaborator tool.
#[derive(Debug, Clone, PartialEq)]
pub enum ToolError {
    Schema(String),
    Execution(String),
    Serialization(String),
}

/// Error raised by one node step.
#[derive(Debug, Clone, PartialEq)]
pub enum NodeError {
    /// A failure internal to the node.
    Execution(String),
    /// A tool error propagated out of the node.
    Tool(ToolError),
    /// A failure of a language-model call surfaced inside the node.
    ModelError(String),
    /// A built graph acting as a node failed; the inner error is rendered.
    SubgraphExecution(String),
    /// Anything else.
    Other(String),
}

/// Error raised by a whole graph run.
#[derive(Debug, Clone, PartialEq)]
pub enum GraphError {
    /// A successor name is neither a node nor the end sentinel.
    NodeNotFound(String),
    /// A non-start node has no outgoing edge.
    InvalidTransition(String),
    /// The graph cannot be run at all (for instance, it has no nodes).
    InvalidState(String),
    /// The run itself failed (for instance, the step budget ran out).
    ExecutionError(String),
    /// A node error bubbling up unchanged.
    Node(NodeError),
    /// A failure of a language-model call.
    ModelError(String),
    /// Anything else.
    Other(String),
}

/// Spec-level shape of a `ToolError`.
pub enum ToolErrorView {
    Schema(Seq<char>),
    Execution(Seq<char>),
    Serialization(Seq<char>),
}

/// Spec-level shape of a `NodeError`.
pub enum NodeErrorView {
    Execution(Seq<char>),
    Tool(ToolErrorView),
    ModelError(Seq<char>),
    SubgraphExecution(Seq<char>),
    Other(Seq<char>),
}

/// Spec-level shape of a `GraphError`.
pub enum GraphErrorView {
    NodeNotFound(Seq<char>),
    InvalidTransition(Seq<char>),
    InvalidState(Seq<char>),
    ExecutionError(Seq<char>),
    Node(NodeErrorView),
    ModelError(Seq<char>),
    Other(Seq<char>),
}

impl View for ToolError {
    type V = ToolErrorView;

    open spec fn view(&self) -> ToolErrorView {
        match self {
            ToolError::Schema(m) => ToolErrorView::Schema(m@),
            ToolError::Execution(m) => ToolErrorView::Execution(m@),
            ToolError::Serialization(m) => ToolErrorView::Serialization(m@),
        }
    }
}

impl View for NodeError {
    type V = NodeErrorView;

    open spec fn view(&self) -> NodeErrorView {
        match self {
            NodeError::Execution(m) => NodeErrorView::Execution(m@),
            NodeError::Tool(e) => NodeErrorView::Tool(e@),
            NodeError::ModelError(m) => NodeErrorView::ModelError(m@),
            NodeError::SubgraphExecution(m) => NodeErrorView::SubgraphExecution(m@),
            NodeError::Other(m) => NodeErrorView::Other(m@),
        }
    }
}

impl View for GraphError {
    type V = GraphErrorView;

    open spec fn view(&self) -> GraphErrorView {
        match self {
            GraphError::NodeNotFound(m) => GraphErrorView::NodeNotFound(m@),
            GraphError::InvalidTransition(m) => GraphErrorView::InvalidTransition(m@),
            GraphError::InvalidState(m) => GraphErrorView::InvalidState(m@),
            GraphError::ExecutionError(m) => GraphErrorView::ExecutionError(m@),
            GraphError::Node(e) => GraphErrorView::Node(e@),
            GraphError::ModelError(m) => GraphErrorView::ModelError(m@),
            GraphError::Other(m) => GraphErrorView::Other(m@),
        }
    }
}

/// The diagnostic line of a tool error.
pub open spec fn spec_tool_error_message(e: ToolErrorView) -> Seq<char> {
    match e {
        ToolErrorView::Schema(m) => "Schema: "@ + m,
        ToolErrorView::Execution(m) => "Execution: "@ + m,
        ToolErrorView::Serialization(m) => "Serialization: "@ + m,
    }
}

/// The diagnostic line of a node error; a tool error renders as itself.
pub open spec fn spec_node_error_message(e: NodeErrorView) -> Seq<char> {
    match e {
        NodeErrorView::Execution(m) => "Node execution: "@ + m,
        NodeErrorView::Tool(t) => spec_tool_error_message(t),
        NodeErrorView::ModelError(m) => "Model: "@ + m,
        NodeErrorView::SubgraphExecution(m) => "Subgraph execution: "@ + m,
        NodeErrorView::Other(m) => "Other: "@ + m,
    }
}

/// The diagnostic line of a graph error; a node error renders as itself.
pub open spec fn spec_graph_error_message(e: GraphErrorView) -> Seq<char> {
    match e {
        GraphErrorView::NodeNotFound(m) => "Node not found: "@ + m,
        GraphErrorView::InvalidTransition(m) => "Invalid transition: "@ + m,
        GraphErrorView::InvalidState(m) => "Invalid state: "@ + m,
        GraphErrorView::ExecutionError(m) => "Execution: "@ + m,
        GraphErrorView::Node(n) => spec_node_error_message(n),
        GraphErrorView::ModelError(m) => "Model: "@ + m,
        GraphErrorView::Other(m) => "Other: "@ + m,
    }
}

/// A prefix followed by a payload.
fn prefixed(prefix: &str, m: &String) -> (r: String)
    ensures
        r@ == prefix@ + m@,
{
    let mut s: String = prefix.to_owned();
    s.append(m.as_str());
    s
}

impl ToolError {
    /// Renders the error as a diagnostic line.
    pub fn message(&self) -> (r: String)
        ensures
            r@ == spec_tool_error_message(self@),
    {
        match self {
            ToolError::Schema(m) => prefixed("Schema: ", m),
            ToolError::Execution(m) => prefixed("Execution: ", m),
            ToolError::Serialization(m) => prefixed("Serialization: ", m),
        }
    }
}

impl NodeError {
    /// Renders the error as a diagnostic line.
    pub fn message(&self) -> (r: String)
        ensures
            r@ == spec_node_error_message(self@),
    {
        match self {
            NodeError::Execution(m) => prefixed("Node execution: ", m),
            NodeError::Tool(t) => t.message(),
            NodeError::ModelError(m) => prefixed("Model: ", m),
            NodeError::SubgraphExecution(m) => prefixed("Subgraph execution: ", m),
            NodeError::Other(m) => prefixed("Other: ", m),
        }
    }
}

impl GraphError {
    /// Renders the error as a diagnostic line.
    pub fn message(&self) -> (r: String)
        ensures
            r@ == spec_graph_error_message(self@),
    {
        match self {
            GraphError::NodeNotFound(m) => prefixed("Node not found: ", m),
            GraphError::InvalidTransition(m) => prefixed("Invalid transition: ", m),
            GraphError::InvalidState(m) => prefixed("Invalid state: ", m),
            GraphError::ExecutionError(m) => prefixed("Execution: ", m),
            GraphError::Node(n) => n.message(),
            GraphError::ModelError(m) => prefixed("Model: ", m),
            GraphError::Other(m) => prefixed("Other: ", m),
        }
    }
}

/// The result of a whole graph run.
pub type GraphResult<T> = Result<T, GraphError>;

impl From<ToolError> for NodeError {
    /// A tool error bubbles into a node error unchanged.
    fn from(e: ToolError) -> (r: Self)
        ensures
            r == NodeError::Tool(e),
    {
        NodeError::Tool(e)
    }
}

impl vstd::std_specs::convert::FromSpecImpl<ToolError> for NodeError {
    open spec fn obeys_from_spec() -> bool {
        true
    }

    open spec fn from_spec(e: ToolError) -> Self {
        NodeError::Tool(e)
    }
}

impl From<NodeError> for GraphError {
    /// A node error bubbles into a graph error unchanged.
    fn from(e: NodeError) -> (r: Self)
        ensures
            r == GraphError::Node(e),
    {
        GraphError::Node(e)
    }
}

impl vstd::std_specs::convert::FromSpecImpl<NodeError> for GraphError {
    open spec fn obeys_from_spec() -> bool {
        true
    }

    open spec fn from_spec(e: NodeError) -> Self {
        GraphError::Node(e)
    }
}

} // verus!
