//! The node contract and the two standard adapters.

use agentgraph::{
    Context, CounterState, CounterStateUpdate, FixedRouter, FunctionNode, Graph, MethodNode, Node,
    NodeOutput, END, START,
};

#[test]
fn tests_test_function_node() {
    let mut node = FunctionNode::new("test".to_string(), |_ctx: &Context, _state: CounterState| {
        Ok(NodeOutput::Full(CounterState {
            count: 0,
            history: vec!["Ryan".to_string()],
            tags: vec![],
        }))
    });

    let ctx = Context::new("test".to_string());
    let result = node.process(&ctx, CounterState::new(1)).unwrap();

    match result {
        NodeOutput::Full(state) => {
            assert_eq!(
                state,
                CounterState { count: 0, history: vec!["Ryan".to_string()], tags: vec![] }
            );
        }
        NodeOutput::Updates(_) => {
            panic!("Expected a full state, but got updates");
        }
    }

    assert_eq!(node.name(), "test");
}

/// A receiver whose method adds its stored amount to the count.
struct Adder {
    amount: i32,
}

impl Adder {
    fn add(&self, _ctx: &Context, state: CounterState) -> Result<NodeOutput<CounterState>, agentgraph::NodeError> {
        Ok(NodeOutput::Full(CounterState::new(state.count + self.amount)))
    }
}

#[test]
fn test_method_node() {
    let mut node = MethodNode::new(
        "adder".to_string(),
        Adder { amount: 7 },
        |receiver: &Adder, ctx: &Context, state: CounterState| receiver.add(ctx, state),
    );

    let ctx = Context::new("test".to_string());
    let result = node.process(&ctx, CounterState::new(10)).unwrap();
    match result {
        NodeOutput::Full(state) => assert_eq!(state.count, 17),
        NodeOutput::Updates(_) => panic!("Expected a full state"),
    }
    assert_eq!(node.name(), "adder");
}

#[test]
fn test_function_node_in_graph() {
    let node = FunctionNode::new("inc".to_string(), |_ctx: &Context, state: CounterState| {
        Ok(NodeOutput::Updates(vec![CounterStateUpdate::Count(state.count + 1)]))
    });

    let mut built = {
        let mut graph: Graph<CounterState, _, FixedRouter> = Graph::new("test".to_string());
        graph
            .add_node(node)
            .add_edge(START.to_string(), "inc".to_string())
            .add_edge("inc".to_string(), END.to_string());
        graph.build()
    };

    let ctx = Context::new("test".to_string());
    let result = built.run(&ctx, CounterState::new(41)).unwrap();
    assert_eq!(result.count, 42);
}
