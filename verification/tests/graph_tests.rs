//! End-to-end graph execution: linear flows, conditional routing, retry
//! behavior, and subgraph composition.

use agentgraph::{
    Context, CounterState, CounterStateUpdate, FixedRouter, Graph, GraphError, Node,
    NodeConfigBuilder, NodeError, NodeOutput, Router, END, START,
};

/// The nodes the scenarios use, as one closed set.
#[derive(Debug)]
enum TestNode {
    /// Adds its amount to the count, appending `increment_<n>`.
    Increment(i32),
    /// Doubles the count, appending `double`.
    Double,
    /// Adds one to the count (full replacement).
    Node1,
    /// Doubles the count (full replacement).
    Node2,
    /// Doubles the count, appending `odd` (its name is `odd`).
    NamedOdd,
    /// Doubles the count and adds one, appending `even` (its name is
    /// `even`).
    NamedEven,
    /// Adds one, recording `step1`.
    Step1,
    /// Doubles, recording `step2`.
    Step2,
    /// Subtracts three, recording `step3`.
    Step3,
    /// Errors on its first `failures` invocations, then succeeds with the
    /// invocation count.
    Flaky { failures: i32, attempts: i32 },
}

impl Node<CounterState> for TestNode {
    fn name(&self) -> &str {
        match self {
            TestNode::Increment(_) => "increment",
            TestNode::Double => "double",
            TestNode::Node1 => "node1",
            TestNode::Node2 => "node2",
            TestNode::NamedOdd => "odd",
            TestNode::NamedEven => "even",
            TestNode::Step1 => "step1",
            TestNode::Step2 => "step2",
            TestNode::Step3 => "step3",
            TestNode::Flaky { .. } => "flaky",
        }
    }

    fn process(
        &mut self,
        _ctx: &Context,
        mut state: CounterState,
    ) -> Result<NodeOutput<CounterState>, NodeError> {
        match self {
            TestNode::Increment(amount) => Ok(NodeOutput::Updates(vec![
                CounterStateUpdate::Count(state.count + *amount),
                CounterStateUpdate::History(vec![format!("increment_{}", amount)]),
            ])),
            TestNode::Double => Ok(NodeOutput::Updates(vec![
                CounterStateUpdate::Count(state.count * 2),
                CounterStateUpdate::History(vec!["double".to_string()]),
            ])),
            TestNode::Node1 => Ok(NodeOutput::Updates(vec![CounterStateUpdate::Count(
                state.count + 1,
            )])),
            TestNode::Node2 => Ok(NodeOutput::Full(CounterState::new(state.count * 2))),
            TestNode::NamedOdd => Ok(NodeOutput::Updates(vec![
                CounterStateUpdate::Count(state.count * 2),
                CounterStateUpdate::History(vec!["odd".to_string()]),
            ])),
            TestNode::NamedEven => Ok(NodeOutput::Updates(vec![
                CounterStateUpdate::Count(state.count * 2 + 1),
                CounterStateUpdate::History(vec!["even".to_string()]),
            ])),
            TestNode::Step1 => {
                state.count += 1;
                state.history.push("step1".to_string());
                Ok(NodeOutput::Full(state))
            }
            TestNode::Step2 => {
                state.count *= 2;
                state.history.push("step2".to_string());
                Ok(NodeOutput::Full(state))
            }
            TestNode::Step3 => {
                state.count -= 3;
                state.history.push("step3".to_string());
                Ok(NodeOutput::Full(state))
            }
            TestNode::Flaky { failures, attempts } => {
                *attempts += 1;
                if *attempts <= *failures {
                    Err(NodeError::Execution("Temporary failure".to_string()))
                } else {
                    Ok(NodeOutput::Updates(vec![CounterStateUpdate::Count(*attempts)]))
                }
            }
        }
    }
}

/// The conditional edges the scenarios use, as one closed set.
#[derive(Debug, Clone)]
enum TestRouter {
    /// To `node2` while the count is below five, else to the end.
    BelowFive,
    /// To `even` when the count is even, else to `odd`.
    Parity,
    /// To the end once the count is above one hundred, else to `even`.
    AboveHundredEnds,
    /// To `step2` while the count is positive, else to `step3`.
    Positive,
}

impl Router<CounterState> for TestRouter {
    fn route(&self, state: &CounterState) -> String {
        match self {
            TestRouter::BelowFive => {
                if state.count < 5 {
                    "node2".to_string()
                } else {
                    END.to_string()
                }
            }
            TestRouter::Parity => {
                if state.count % 2 == 0 {
                    "even".to_string()
                } else {
                    "odd".to_string()
                }
            }
            TestRouter::AboveHundredEnds => {
                if state.count > 100 {
                    END.to_string()
                } else {
                    "even".to_string()
                }
            }
            TestRouter::Positive => {
                if state.count > 0 {
                    "step2".to_string()
                } else {
                    "step3".to_string()
                }
            }
        }
    }
}

#[test]
fn graph_tests_test_basic_counter_flow() {
    let mut built_graph = {
        let mut graph: Graph<CounterState, TestNode, TestRouter> = Graph::new("test".to_string());
        graph
            .add_node(TestNode::Increment(5))
            .add_node(TestNode::Double)
            .add_edge(START.to_string(), "increment".to_string())
            .add_edge("increment".to_string(), "double".to_string())
            .add_edge("double".to_string(), END.to_string());
        graph.build()
    };

    let ctx = Context::new("test".to_string());
    let initial_state = CounterState::new(10);
    let final_state = built_graph.run(&ctx, initial_state).unwrap();

    assert_eq!(final_state.count, 30); // (10 + 5) * 2
    assert_eq!(final_state.history, vec!["increment_5", "double"]);
}

#[test]
fn graph_tests_test_conditional_routing() {
    let mut built_graph = {
        let mut graph: Graph<CounterState, TestNode, TestRouter> = Graph::new("test".to_string());
        graph
            .add_node(TestNode::NamedEven)
            .add_node(TestNode::NamedOdd)
            .add_edge(START.to_string(), "even".to_string())
            .add_conditional_edge("even".to_string(), TestRouter::Parity)
            .add_conditional_edge("odd".to_string(), TestRouter::AboveHundredEnds);
        graph.build()
    };

    let ctx = Context::new("test".to_string());
    let initial_state = CounterState::new(5);
    let final_state = built_graph.run(&ctx, initial_state).unwrap();

    println!("Final count: {}", final_state.count);
    println!("History: {:?}", final_state.history);
}

#[test]
fn tests_test_basic_graph() {
    let mut built_graph = {
        let mut graph: Graph<CounterState, TestNode, TestRouter> = Graph::new("test".to_string());
        graph
            .add_node(TestNode::Node1)
            .add_node(TestNode::Node2)
            .add_edge("node1".to_string(), "node2".to_string())
            .add_edge(START.to_string(), "node1".to_string())
            .add_edge("node2".to_string(), END.to_string());
        graph.build()
    };

    let ctx = Context::new("test".to_string());
    let result = built_graph.run(&ctx, CounterState::new(1)).unwrap();

    // 1 + 1 = 2, 2 * 2 = 4
    assert_eq!(result.count, 4);
}

#[test]
fn tests_test_conditional_graph() {
    let mut built_graph = {
        let mut graph: Graph<CounterState, TestNode, TestRouter> = Graph::new("test".to_string());
        graph
            .add_node(TestNode::Node1)
            .add_node(TestNode::Node2)
            .add_edge(START.to_string(), "node1".to_string())
            .add_edge("node2".to_string(), END.to_string())
            .add_conditional_edge("node1".to_string(), TestRouter::BelowFive);
        graph.build()
    };

    // The condition routes to node2.
    let ctx = Context::new("test1".to_string());
    let result = built_graph.run(&ctx, CounterState::new(1)).unwrap();
    assert_eq!(result.count, 4);

    // The condition routes to the end.
    let ctx = Context::new("test2".to_string());
    let result = built_graph.run(&ctx, CounterState::new(5)).unwrap();
    assert_eq!(result.count, 6);
}

#[test]
fn graph_tests_test_complex_workflow() {
    let mut built_graph = {
        let mut graph: Graph<CounterState, TestNode, TestRouter> = Graph::new("test_complex".to_string());
        graph
            .add_node(TestNode::Step1)
            .add_node(TestNode::Step2)
            .add_node(TestNode::Step3)
            .add_edge(START.to_string(), "step1".to_string())
            .add_conditional_edge("step1".to_string(), TestRouter::Positive)
            .add_edge("step2".to_string(), "step3".to_string())
            .add_edge("step3".to_string(), END.to_string());
        graph.build()
    };

    let ctx = Context::new("test_complex".to_string());
    let initial_state = CounterState::new(5);
    let final_state = built_graph.run(&ctx, initial_state).unwrap();

    println!("Final state: {:?}", final_state);
    assert_eq!(final_state.history, vec!["step1", "step2", "step3"]);
    // 5 -> 6 -> 12 -> 9
    assert_eq!(final_state.count, 9);
}

#[test]
fn graph_tests_test_retry_behavior() {
    let mut built_graph = {
        let mut graph: Graph<CounterState, TestNode, TestRouter> = Graph::new("test".to_string());
        graph
            .add_node(TestNode::Flaky { failures: 2, attempts: 0 })
            .add_edge(START.to_string(), "flaky".to_string())
            .add_edge("flaky".to_string(), END.to_string());
        graph.build()
    };

    let ctx = Context::new("test".to_string());
    let initial_state = CounterState::new(0);
    let result = built_graph.run(&ctx, initial_state);

    assert!(result.is_ok());
    // 2 failures + 1 success: the node saw exactly three invocations.
    assert_eq!(result.unwrap().count, 3);
}

#[test]
fn test_retry_exhausted_surfaces_node_error() {
    let mut built_graph = {
        let mut graph: Graph<CounterState, TestNode, TestRouter> = Graph::new("test".to_string());
        graph
            .add_node(TestNode::Flaky { failures: 2, attempts: 0 })
            .add_edge(START.to_string(), "flaky".to_string())
            .add_edge("flaky".to_string(), END.to_string())
            .configure_node(
                "flaky".to_string(),
                NodeConfigBuilder::new().max_retries(2).build(),
            );
        graph.build()
    };

    let ctx = Context::new("test".to_string());
    let result = built_graph.run(&ctx, CounterState::new(0));

    assert!(matches!(
        result,
        Err(GraphError::Node(NodeError::Execution(_)))
    ));
}

#[test]
fn test_subgraph_composition() {
    // The inner graph implements the linear counter flow.
    let inner = {
        let mut graph: Graph<CounterState, TestNode, TestRouter> = Graph::new("inner".to_string());
        graph
            .add_node(TestNode::Increment(5))
            .add_node(TestNode::Double)
            .add_edge(START.to_string(), "increment".to_string())
            .add_edge("increment".to_string(), "double".to_string())
            .add_edge("double".to_string(), END.to_string());
        graph.build()
    };

    // The outer graph has the built inner graph as its only node.
    let mut outer = {
        let mut graph: Graph<
            CounterState,
            Graph<CounterState, TestNode, TestRouter, agentgraph::Built>,
            TestRouter,
        > = Graph::new("outer".to_string());
        graph
            .add_node(inner)
            .add_edge(START.to_string(), "inner".to_string())
            .add_edge("inner".to_string(), END.to_string());
        graph.build()
    };

    let ctx = Context::new("test".to_string());
    let final_state = outer.run(&ctx, CounterState::new(10)).unwrap();

    assert_eq!(final_state.count, 30);
    assert_eq!(final_state.history, vec!["increment_5", "double"]);
}

#[test]
fn test_node_not_found() {
    let mut built_graph = {
        let mut graph: Graph<CounterState, TestNode, TestRouter> = Graph::new("test".to_string());
        graph
            .add_node(TestNode::Node1)
            .add_edge(START.to_string(), "node1".to_string())
            .add_edge("node1".to_string(), "ghost".to_string());
        graph.build()
    };

    let ctx = Context::new("test".to_string());
    let result = built_graph.run(&ctx, CounterState::new(0));
    assert_eq!(result, Err(GraphError::NodeNotFound("ghost".to_string())));
}

#[test]
fn test_missing_transition() {
    let mut built_graph = {
        let mut graph: Graph<CounterState, TestNode, TestRouter> = Graph::new("test".to_string());
        graph
            .add_node(TestNode::Node1)
            .add_edge(START.to_string(), "node1".to_string());
        graph.build()
    };

    let ctx = Context::new("test".to_string());
    let result = built_graph.run(&ctx, CounterState::new(0));
    assert_eq!(
        result,
        Err(GraphError::InvalidTransition(
            "No transition defined from node: node1".to_string()
        ))
    );
}

#[test]
fn test_empty_graph_is_invalid() {
    let mut built_graph = {
        let graph: Graph<CounterState, TestNode, TestRouter> = Graph::new("test".to_string());
        graph.build()
    };

    let ctx = Context::new("test".to_string());
    let result = built_graph.run(&ctx, CounterState::new(0));
    assert_eq!(
        result,
        Err(GraphError::InvalidState("Graph has no nodes".to_string()))
    );
}

#[test]
fn test_start_fallback_picks_first_node() {
    // No edge out of the start sentinel: the walk falls back to the first
    // registered node.
    let mut built_graph = {
        let mut graph: Graph<CounterState, TestNode, TestRouter> = Graph::new("test".to_string());
        graph
            .add_node(TestNode::Node1)
            .add_edge("node1".to_string(), END.to_string());
        graph.build()
    };

    let ctx = Context::new("test".to_string());
    let result = built_graph.run(&ctx, CounterState::new(1)).unwrap();
    assert_eq!(result.count, 2);
}

#[test]
fn test_fixed_router_conditional_edge() {
    let mut built_graph = {
        let mut graph: Graph<CounterState, TestNode, FixedRouter> = Graph::new("test".to_string());
        graph
            .add_node(TestNode::Node1)
            .add_edge(START.to_string(), "node1".to_string())
            .add_conditional_edge("node1".to_string(), FixedRouter { target: END.to_string() });
        graph.build()
    };

    let ctx = Context::new("test".to_string());
    let result = built_graph.run(&ctx, CounterState::new(7)).unwrap();
    assert_eq!(result.count, 8);
}
