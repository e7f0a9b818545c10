//! Edges, routers, node configuration, and the state contract surface.

use agentgraph::{
    CounterState, CounterStateUpdate, Edge, GraphState, NodeConfig, NodeConfigBuilder, Router,
};

/// Routes to "high" when the count is above five, else to "low".
#[derive(Debug, Clone)]
struct HighLowRouter;

impl Router<CounterState> for HighLowRouter {
    fn route(&self, state: &CounterState) -> String {
        if state.count > 5 {
            "high".to_string()
        } else {
            "low".to_string()
        }
    }
}

/// Routes to a fixed name, whatever the state.
#[derive(Debug, Clone)]
struct TestTargetRouter;

impl Router<CounterState> for TestTargetRouter {
    fn route(&self, _state: &CounterState) -> String {
        "test".to_string()
    }
}

#[test]
fn tests_test_edge_creation_and_debug() {
    let direct_edge: Edge<HighLowRouter> = Edge::Direct("next".to_string());
    assert!(format!("{:?}", direct_edge).contains("Direct"));

    let cond_edge: Edge<HighLowRouter> = Edge::Conditional(HighLowRouter);
    assert!(format!("{:?}", cond_edge).contains("Conditional"));
}

#[test]
fn state_test_edge_creation_and_debug() {
    let direct_edge: Edge<HighLowRouter> = Edge::Direct("next".to_string());
    assert!(format!("{:?}", direct_edge).contains("Direct"));

    let cond_edge: Edge<HighLowRouter> = Edge::Conditional(HighLowRouter);
    assert!(format!("{:?}", cond_edge).contains("Conditional"));
}

#[test]
fn tests_test_conditional_edge() {
    let condition = HighLowRouter;

    let state = CounterState::new(10);
    assert_eq!(condition.route(&state), "high");

    let state = CounterState::new(3);
    assert_eq!(condition.route(&state), "low");
}

#[test]
fn state_test_conditional_edge() {
    let condition = HighLowRouter;

    let state = CounterState::new(10);
    assert_eq!(condition.route(&state), "high");

    let state = CounterState::new(3);
    assert_eq!(condition.route(&state), "low");
}

#[test]
fn tests_test_edge_cloning() {
    let direct_edge: Edge<TestTargetRouter> = Edge::Direct("next".to_string());
    let cloned_direct = direct_edge.clone();

    match cloned_direct {
        Edge::Direct(target) => assert_eq!(target, "next"),
        _ => panic!("Wrong edge type after cloning"),
    }

    let cond_edge: Edge<TestTargetRouter> = Edge::Conditional(TestTargetRouter);
    let cloned_cond = cond_edge.clone();

    match cloned_cond {
        Edge::Conditional(c) => assert_eq!(c.route(&CounterState::new(0)), "test"),
        _ => panic!("Wrong edge type after cloning"),
    }
}

#[test]
fn state_test_edge_cloning() {
    let direct_edge: Edge<TestTargetRouter> = Edge::Direct("next".to_string());
    let cloned_direct = direct_edge.clone();

    match cloned_direct {
        Edge::Direct(target) => assert_eq!(target, "next"),
        _ => panic!("Wrong edge type after cloning"),
    }

    let cond_edge: Edge<TestTargetRouter> = Edge::Conditional(TestTargetRouter);
    let cloned_cond = cond_edge.clone();

    match cloned_cond {
        Edge::Conditional(c) => assert_eq!(c.route(&CounterState::new(0)), "test"),
        _ => panic!("Wrong edge type after cloning"),
    }
}

#[test]
fn test_node_config_builder() {
    let config = NodeConfigBuilder::new().max_retries(5).timeout(60).build();

    assert_eq!(config.max_retries, 5);
    assert_eq!(config.timeout, 60);
}

#[test]
fn test_node_config_default() {
    let config = NodeConfig::default();
    assert_eq!(config.max_retries, 3);
    assert_eq!(config.timeout, 30);
}

#[test]
fn test_graph_state() {
    let mut state = CounterState::new(0);
    let other_state = CounterState::new(5);

    // A state can be copied by value.
    let boxed_state = state.clone_state();
    assert_eq!(boxed_state.count, 0);

    // Folding another state's count into this one.
    state.apply(CounterStateUpdate::Count(other_state.count));
}
