//! A small in-process orchestration runtime for stateful, multi-step
//! workflows. A workflow is a directed graph of named nodes that transform a
//! typed state; edges are either direct or computed from the current state.
//! The runtime walks the graph from the reserved `_START_` sentinel to the
//! reserved `_END_` sentinel, applying per-node timeouts, bounded retries,
//! and a structured state-update protocol.

pub mod config;
pub mod context;
pub mod counter;
pub mod edge;
pub mod error;
pub mod graph;
pub mod machine;
pub mod message;
pub mod node;
pub mod registry;
pub mod state;
pub mod text;
pub mod tracing;

pub use config::{NodeConfig, NodeConfigBuilder};
pub use context::Context;
pub use counter::{CounterState, CounterStateUpdate};
pub use edge::{Edge, FixedRouter, Router};
pub use error::{GraphError, GraphResult, NodeError, ToolError};
pub use graph::{Built, Graph, NotBuilt, END, START};
pub use machine::{AttemptOutcome, RunMachine, RunPhase};
pub use message::MessageType;
pub use node::{FunctionNode, MethodNode, Node};
pub use registry::Registry;
pub use state::{GraphState, NodeOutput, NodeResult};
pub use text::u64_to_string;
pub use tracing::TracingError;
