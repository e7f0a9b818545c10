//! The run machine driven by hand: attempt counting, timeout surfacing,
//! and the per-attempt retry contexts.

use agentgraph::{
    AttemptOutcome, Context, CounterState, CounterStateUpdate, Edge, FixedRouter, GraphError,
    GraphState, Node, NodeConfigBuilder, NodeError, NodeOutput, Registry, RunMachine, RunPhase,
    END, START,
};

/// A node that always fails.
#[derive(Debug)]
struct AlwaysFails;

impl Node<CounterState> for AlwaysFails {
    fn name(&self) -> &str {
        "flaky"
    }

    fn process(
        &mut self,
        _ctx: &Context,
        _state: CounterState,
    ) -> Result<NodeOutput<CounterState>, NodeError> {
        Err(NodeError::Execution("Temporary failure".to_string()))
    }
}

/// A one-node topology `START -> <name> -> END` with the given policy.
fn one_node_topology(
    name: &str,
    max_retries: usize,
    timeout: u64,
) -> (Registry<usize>, Registry<Edge<FixedRouter>>, Registry<agentgraph::NodeConfig>) {
    let mut node_index: Registry<usize> = Registry::new();
    node_index.insert(name.to_string(), 0);
    let mut edges: Registry<Edge<FixedRouter>> = Registry::new();
    edges.insert(START.to_string(), Edge::Direct(name.to_string()));
    edges.insert(name.to_string(), Edge::Direct(END.to_string()));
    let mut configs: Registry<agentgraph::NodeConfig> = Registry::new();
    configs.insert(
        name.to_string(),
        NodeConfigBuilder::new().max_retries(max_retries).timeout(timeout).build(),
    );
    (node_index, edges, configs)
}

#[test]
fn test_retry_exhausted_invocation_count() {
    // A node that always errors, with a total attempt count of two: the
    // engine invokes it exactly twice and surfaces the last error.
    let (node_index, edges, configs) = one_node_topology("flaky", 2, 30);
    let mut node = AlwaysFails;
    let ctx = Context::new("test".to_string());
    let mut m = RunMachine::new(&ctx, CounterState::new(0));
    let mut invocations = 0;

    loop {
        m = m.advance(&node_index, &edges, &configs);
        let step = match &m.phase {
            RunPhase::Attempting { attempt_ctx, state, .. } => {
                Some((attempt_ctx.clone(), state.clone_state()))
            }
            _ => None,
        };
        match step {
            Some((actx, st)) => {
                invocations += 1;
                let res = node.process(&actx, st);
                m = m.feed(AttemptOutcome::Finished(res));
            }
            None => break,
        }
    }

    assert_eq!(invocations, 2);
    let result = m.into_result().unwrap();
    assert!(matches!(result, Err(GraphError::Node(NodeError::Execution(_)))));
}

#[test]
fn test_timeout_diagnostic() {
    // One attempt, deadline of one second, and the attempt times out: the
    // run ends with the exact timeout diagnostic for the node.
    let (node_index, edges, configs) = one_node_topology("slow", 1, 1);
    let ctx = Context::new("test".to_string());
    let mut m = RunMachine::new(&ctx, CounterState::new(0));

    m = m.advance(&node_index, &edges, &configs);
    assert!(matches!(&m.phase, RunPhase::Attempting { .. }));
    m = m.feed(AttemptOutcome::TimedOut);

    let result = m.into_result().unwrap();
    assert_eq!(
        result,
        Err(GraphError::Node(NodeError::Execution(
            "Node slow timed out after 1 attempts".to_string()
        )))
    );
}

#[test]
fn test_timeout_retries_then_exhausts() {
    // Three attempts, all timing out: the diagnostic names the third.
    let (node_index, edges, configs) = one_node_topology("slow", 3, 1);
    let ctx = Context::new("test".to_string());
    let mut m = RunMachine::new(&ctx, CounterState::new(0));

    m = m.advance(&node_index, &edges, &configs);
    m = m.feed(AttemptOutcome::TimedOut);
    assert!(matches!(&m.phase, RunPhase::Attempting { .. }));
    m = m.feed(AttemptOutcome::TimedOut);
    assert!(matches!(&m.phase, RunPhase::Attempting { .. }));
    m = m.feed(AttemptOutcome::TimedOut);

    let result = m.into_result().unwrap();
    assert_eq!(
        result,
        Err(GraphError::Node(NodeError::Execution(
            "Node slow timed out after 3 attempts".to_string()
        )))
    );
}

#[test]
fn test_retry_contexts_differ() {
    // Across a multi-attempt step, successive attempts see pairwise
    // distinct trace identifiers, and each retry context points back at
    // the attempt before it. The state fed to each attempt is the same.
    let (node_index, edges, configs) = one_node_topology("flaky", 3, 30);
    let ctx = Context::new("base".to_string());
    let mut m = RunMachine::new(&ctx, CounterState::new(42));
    let mut seen: Vec<(String, Option<String>)> = Vec::new();

    m = m.advance(&node_index, &edges, &configs);
    for _ in 0..3 {
        match &m.phase {
            RunPhase::Attempting { attempt_ctx, state, .. } => {
                assert_eq!(state.count, 42);
                seen.push((attempt_ctx.trace_id.clone(), attempt_ctx.parent_trace_id.clone()));
            }
            _ => panic!("expected a pending attempt"),
        }
        m = m.feed(AttemptOutcome::Finished(Err(NodeError::Execution(
            "Temporary failure".to_string(),
        ))));
    }

    assert_eq!(seen.len(), 3);
    // The first attempt runs under the caller's context.
    assert_eq!(seen[0].0, "base");
    // Attempts 2..N point back at the attempt immediately before them.
    assert_eq!(seen[1].1, Some(seen[0].0.clone()));
    assert_eq!(seen[2].1, Some(seen[1].0.clone()));
    // Trace identifiers are pairwise distinct.
    assert_ne!(seen[0].0, seen[1].0);
    assert_ne!(seen[1].0, seen[2].0);
    assert_ne!(seen[0].0, seen[2].0);
}

#[test]
fn test_successful_attempt_folds_and_moves_on() {
    // A successful attempt folds the output and moves the cursor onto the
    // node; an empty update sequence still succeeds and leaves the state
    // as it was.
    let (node_index, edges, configs) = one_node_topology("step", 3, 30);
    let ctx = Context::new("test".to_string());
    let mut m = RunMachine::new(&ctx, CounterState::new(9));

    m = m.advance(&node_index, &edges, &configs);
    m = m.feed(AttemptOutcome::Finished(Ok(NodeOutput::Updates(vec![]))));
    match &m.phase {
        RunPhase::Ready { cursor, state } => {
            assert_eq!(cursor, "step");
            assert_eq!(state.count, 9);
        }
        _ => panic!("expected the cursor to stand on the node"),
    }

    m = m.advance(&node_index, &edges, &configs);
    let result = m.into_result().unwrap();
    assert_eq!(result.unwrap().count, 9);
}

#[test]
fn test_full_output_replaces_state() {
    let (node_index, edges, configs) = one_node_topology("step", 3, 30);
    let ctx = Context::new("test".to_string());
    let mut m = RunMachine::new(&ctx, CounterState::new(1));

    m = m.advance(&node_index, &edges, &configs);
    let mut replacement = CounterState::new(77);
    replacement.apply(CounterStateUpdate::History(vec!["swap".to_string()]));
    m = m.feed(AttemptOutcome::Finished(Ok(NodeOutput::Full(replacement))));
    m = m.advance(&node_index, &edges, &configs);
    let final_state = m.into_result().unwrap().unwrap();
    assert_eq!(final_state.count, 77);
    assert_eq!(final_state.history, vec!["swap"]);
}
