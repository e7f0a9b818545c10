//! The graph itself: a named collection of nodes, edges and per-node
//! configurations, built up mutably and then frozen into an executable
//! form. Execution walks from the reserved start sentinel to the reserved
//! end sentinel, driving one node step at a time through the run machine.

use vstd::prelude::*;
use crate::config::NodeConfig;
use crate::context::{Context, ContextView};
use crate::edge::{Edge, Router};
use crate::error::{spec_graph_error_message, GraphError, GraphErrorView, NodeError};
use crate::machine::{
    spec_advance, spec_feed, spec_result_view, AttemptOutcome, RunMachine, RunMachineModel,
    RunPhase, RunPhaseModel,
};
use crate::node::Node;
use crate::registry::Registry;
use crate::state::{GraphState, NodeOutput};

verus! {

/// Reserved name of the entry pseudo-node. It never names a real node.
pub const START: &'static str = "_START_";

/// Reserved name of the exit pseudo-node. It never names a real node.
pub const END: &'static str = "_END_";

/// The content of the start sentinel.
pub open spec fn spec_start() -> Seq<char> {
    "_START_"@
}

/// The content of the end sentinel.
pub open spec fn spec_end() -> Seq<char> {
    "_END_"@
}

/// Marker type of a graph still under construction.
#[derive(Debug)]
pub struct NotBuilt;

/// Marker type of a graph that is ready to run.
#[derive(Debug)]
pub struct Built;

/// Upper bound on the node attempts a single run may make; a run that
/// would exceed it ends with the budget diagnostic instead of looping
/// forever on a cyclic graph.
pub const RUN_ATTEMPT_LIMIT: u64 = 1000000;

/// The diagnostic line of a run that exceeded the attempt budget.
pub open spec fn spec_budget_message() -> Seq<char> {
    "Run attempt budget exhausted"@
}

/// The machine a run starts from: standing at the start sentinel with
/// the initial state.
pub open spec fn spec_initial_machine<S: GraphState>(
    ctx: ContextView,
    init: S::V,
) -> RunMachineModel<S> {
    RunMachineModel {
        base_ctx: ctx,
        phase: RunPhaseModel::Ready { cursor: spec_start(), state: init },
    }
}

/// The outcome of driving the machine `m` through the attempt outcomes
/// `outs` (with the fresh retry identifiers `ids`): advance, then resolve
/// one attempt at a time, until the machine is done. `None` when the
/// trace is too short or too long for the machine.
pub open spec fn spec_run_from<S: GraphState, R: Router<S>>(
    node_keys: Seq<Seq<char>>,
    edges: Map<Seq<char>, Edge<R>>,
    configs: Map<Seq<char>, NodeConfig>,
    m: RunMachineModel<S>,
    outs: Seq<AttemptOutcome<S>>,
    ids: Seq<Seq<char>>,
) -> Option<Result<S::V, GraphErrorView>>
    decreases outs.len(),
{
    let m1 = spec_advance::<S, R>(m, node_keys, edges, configs);
    match m1.phase {
        RunPhaseModel::Done { result } => if outs.len() == 0 {
            Some(result)
        } else {
            None
        },
        RunPhaseModel::Attempting { .. } => if outs.len() > 0 && ids.len() > 0 {
            spec_run_from::<S, R>(
                node_keys,
                edges,
                configs,
                spec_feed::<S>(m1, outs[0], ids[0]),
                outs.drop_first(),
                ids.drop_first(),
            )
        } else {
            None
        },
        RunPhaseModel::Ready { .. } => None,
    }
}

/// After every outcome in `outs` has been resolved, the run is still in
/// the middle of a node step: it has finished with neither a result nor
/// an error. This is what a run that exhausts its attempt budget looks
/// like at the model level.
pub open spec fn spec_run_unfinished<S: GraphState, R: Router<S>>(
    node_keys: Seq<Seq<char>>,
    edges: Map<Seq<char>, Edge<R>>,
    configs: Map<Seq<char>, NodeConfig>,
    m: RunMachineModel<S>,
    outs: Seq<AttemptOutcome<S>>,
    ids: Seq<Seq<char>>,
) -> bool
    decreases outs.len(),
{
    let m1 = spec_advance::<S, R>(m, node_keys, edges, configs);
    match m1.phase {
        RunPhaseModel::Attempting { .. } => if outs.len() == 0 {
            true
        } else if ids.len() > 0 {
            spec_run_unfinished::<S, R>(
                node_keys,
                edges,
                configs,
                spec_feed::<S>(m1, outs[0], ids[0]),
                outs.drop_first(),
                ids.drop_first(),
            )
        } else {
            false
        },
        _ => false,
    }
}

/// What a run may return: the outcome of the machine over some sequence
/// of attempt outcomes — or the budget diagnostic, but only for a run
/// that genuinely exhausts the attempt budget: after a budget's worth of
/// resolved attempts it is still in the middle of a node step.
pub open spec fn spec_run_result<S: GraphState, R: Router<S>>(
    node_keys: Seq<Seq<char>>,
    edges: Map<Seq<char>, Edge<R>>,
    configs: Map<Seq<char>, NodeConfig>,
    ctx: ContextView,
    init: S::V,
    result: Result<S::V, GraphErrorView>,
) -> bool {
    ||| exists|outs: Seq<AttemptOutcome<S>>, ids: Seq<Seq<char>>|
        spec_run_from::<S, R>(
            node_keys,
            edges,
            configs,
            spec_initial_machine::<S>(ctx, init),
            outs,
            ids,
        ) == Some(result)
    ||| (result == Err::<S::V, GraphErrorView>(
        GraphErrorView::ExecutionError(spec_budget_message()),
    ) && exists|outs: Seq<AttemptOutcome<S>>, ids: Seq<Seq<char>>|
        outs.len() == RUN_ATTEMPT_LIMIT as nat && ids.len() == outs.len()
            && spec_run_unfinished::<S, R>(
            node_keys,
            edges,
            configs,
            spec_initial_machine::<S>(ctx, init),
            outs,
            ids,
        ))
}

/// How a built graph's node-facing result relates to its inner run
/// result: a successful run becomes a full-state output, a failed run
/// becomes a subgraph-execution error carrying the rendered inner error.
pub open spec fn spec_subgraph_output<S: GraphState>(
    res: Result<S::V, GraphErrorView>,
    r: Result<NodeOutput<S>, NodeError>,
) -> bool {
    match res {
        Ok(v) => (r matches Ok(NodeOutput::Full(s)) && s@ == v),
        Err(ev) => (r matches Err(NodeError::SubgraphExecution(m)) && m@
            == spec_graph_error_message(ev)),
    }
}

/// A graph that executes nodes in a defined order. `S` is the state the
/// workflow transforms, `N` the node type, `R` the router type of
/// conditional edges, and `B` the build-state marker: a graph is
/// populated while `NotBuilt` and can run once `Built`.
#[verifier::reject_recursive_types(S)]
pub struct Graph<S, N, R, B = NotBuilt> where S: GraphState, N: Node<S>, R: Router<S> {
    graph_name: String,
    nodes: Vec<N>,
    node_index: Registry<usize>,
    edges: Registry<Edge<R>>,
    configs: Registry<NodeConfig>,
    _build_state: core::marker::PhantomData<(S, B)>,
}

impl<S: GraphState, N: Node<S>, R: Router<S>, B> Graph<S, N, R, B> {
    /// The graph's name.
    pub closed spec fn spec_name(&self) -> Seq<char> {
        self.graph_name@
    }

    /// The registered node names, first registration first.
    pub closed spec fn spec_node_keys(&self) -> Seq<Seq<char>> {
        self.node_index.spec_key_views()
    }

    /// The registered nodes, by name.
    pub closed spec fn spec_nodes(&self) -> Map<Seq<char>, N> {
        Map::new(
            |k: Seq<char>| self.node_index@.dom().contains(k),
            |k: Seq<char>| self.nodes@[self.node_index@[k] as int],
        )
    }

    /// The registered edges, by source node name.
    pub closed spec fn spec_edges(&self) -> Map<Seq<char>, Edge<R>> {
        self.edges@
    }

    /// The registered per-node configurations, by node name.
    pub closed spec fn spec_configs(&self) -> Map<Seq<char>, NodeConfig> {
        self.configs@
    }

    /// The graph's tables are well formed, every node index is in range,
    /// and every registered node is fit to process.
    pub closed spec fn wf(&self) -> bool {
        &&& self.node_index.wf()
        &&& self.edges.wf()
        &&& self.configs.wf()
        &&& forall|k: Seq<char>| #[trigger]
            self.node_index@.dom().contains(k) ==> self.node_index@[k] < self.nodes@.len()
        &&& forall|i: int| 0 <= i < self.nodes@.len() ==> (#[trigger] self.nodes@[i]).spec_valid()
    }
}

impl<S: GraphState, N: Node<S>, R: Router<S>> Graph<S, N, R, NotBuilt> {
    /// Creates a new, empty graph.
    pub fn new(name: String) -> (r: Self)
        ensures
            r.wf(),
            r.spec_name() == name@,
            r.spec_node_keys() =~= Seq::<Seq<char>>::empty(),
            r.spec_nodes() =~= Map::<Seq<char>, N>::empty(),
            r.spec_edges() =~= Map::<Seq<char>, Edge<R>>::empty(),
            r.spec_configs() =~= Map::<Seq<char>, NodeConfig>::empty(),
    {
        let r = Graph {
            graph_name: name,
            nodes: Vec::new(),
            node_index: Registry::new(),
            edges: Registry::new(),
            configs: Registry::new(),
            _build_state: core::marker::PhantomData,
        };
        proof {
            assert(r.spec_nodes() =~= Map::<Seq<char>, N>::empty());
        }
        r
    }

    /// Adds a node, registered under its own name; a node with the same
    /// name replaces the previous one (last wins).
    pub fn add_node(&mut self, node: N) -> (r: &mut Self)
        requires
            old(self).wf(),
            node.spec_valid(),
        ensures
            r.wf(),
            r.spec_name() == old(self).spec_name(),
            r.spec_nodes() == old(self).spec_nodes().insert(node.spec_name(), node),
            r.spec_node_keys() == if old(self).spec_nodes().dom().contains(node.spec_name()) {
                old(self).spec_node_keys()
            } else {
                old(self).spec_node_keys().push(node.spec_name())
            },
            r.spec_edges() == old(self).spec_edges(),
            r.spec_configs() == old(self).spec_configs(),
            *final(self) == *final(r),
    {
        let ghost nd = node;
        let name = node.name().to_owned();
        let idx = self.nodes.len();
        self.nodes.push(node);
        self.node_index.insert(name, idx);
        proof {
            let k0 = nd.spec_name();
            assert forall|k: Seq<char>| #[trigger] self.node_index@.dom().contains(k) implies self
                .node_index@[k] < self.nodes@.len() by {
                if k != k0 {
                    assert(old(self).node_index@.dom().contains(k));
                }
            }
            let m1 = self.spec_nodes();
            let m2 = old(self).spec_nodes().insert(k0, nd);
            assert forall|k: Seq<char>| #[trigger] m1.dom().contains(k) implies m2.dom().contains(
                k,
            ) && m1[k] == m2[k] by {
                if k != k0 {
                    assert(old(self).node_index@.dom().contains(k));
                    assert(old(self).node_index@[k] < old(self).nodes@.len());
                }
            }
            assert forall|k: Seq<char>| #[trigger] m2.dom().contains(k) implies m1.dom().contains(
                k,
            ) by {}
            assert(m1 =~= m2);
            assert forall|i: int| 0 <= i < self.nodes@.len() implies (#[trigger] self.nodes@[i]).spec_valid() by {
                if i < old(self).nodes@.len() {
                    assert(old(self).nodes@[i].spec_valid());
                }
            }
        }
        self
    }

    /// Adds a direct edge between nodes (or from the start sentinel, or
    /// to the end sentinel).
    pub fn add_edge(&mut self, from: String, to: String) -> (r: &mut Self)
        requires
            old(self).wf(),
        ensures
            r.wf(),
            r.spec_name() == old(self).spec_name(),
            r.spec_nodes() == old(self).spec_nodes(),
            r.spec_node_keys() == old(self).spec_node_keys(),
            r.spec_edges() == old(self).spec_edges().insert(from@, Edge::Direct(to)),
            r.spec_configs() == old(self).spec_configs(),
            *final(self) == *final(r),
    {
        self.edges.insert(from, Edge::Direct(to));
        self
    }

    /// Adds a conditional edge: the successor of `from` is computed by
    /// `condition` from the current state.
    pub fn add_conditional_edge(&mut self, from: String, condition: R) -> (r: &mut Self)
        requires
            old(self).wf(),
        ensures
            r.wf(),
            r.spec_name() == old(self).spec_name(),
            r.spec_nodes() == old(self).spec_nodes(),
            r.spec_node_keys() == old(self).spec_node_keys(),
            r.spec_edges() == old(self).spec_edges().insert(from@, Edge::Conditional(condition)),
            r.spec_configs() == old(self).spec_configs(),
            *final(self) == *final(r),
    {
        self.edges.insert(from, Edge::Conditional(condition));
        self
    }

    /// Sets the scheduling configuration of the named node.
    pub fn configure_node(&mut self, name: String, config: NodeConfig) -> (r: &mut Self)
        requires
            old(self).wf(),
        ensures
            r.wf(),
            r.spec_name() == old(self).spec_name(),
            r.spec_nodes() == old(self).spec_nodes(),
            r.spec_node_keys() == old(self).spec_node_keys(),
            r.spec_edges() == old(self).spec_edges(),
            r.spec_configs() == old(self).spec_configs().insert(name@, config),
            *final(self) == *final(r),
    {
        self.configs.insert(name, config);
        self
    }

    /// Consumes the builder and hands back the graph ready for
    /// execution; nothing else changes.
    pub fn build(self) -> (r: Graph<S, N, R, Built>)
        requires
            self.wf(),
        ensures
            r.wf(),
            r.spec_name() == self.spec_name(),
            r.spec_nodes() == self.spec_nodes(),
            r.spec_node_keys() == self.spec_node_keys(),
            r.spec_edges() == self.spec_edges(),
            r.spec_configs() == self.spec_configs(),
    {
        let r = Graph {
            graph_name: self.graph_name,
            nodes: self.nodes,
            node_index: self.node_index,
            edges: self.edges,
            configs: self.configs,
            _build_state: core::marker::PhantomData,
        };
        proof {
            assert(r.spec_nodes() =~= self.spec_nodes());
        }
        r
    }
}

impl<S: GraphState, N: Node<S>, R: Router<S>> Graph<S, N, R, Built> {
    /// Runs the graph from `initial_state` under `ctx`: walk from the
    /// start sentinel, selecting successors and executing one node step
    /// at a time under the retry policy, until the end sentinel or an
    /// error. The result is a faithful machine outcome over some sequence
    /// of attempt outcomes — or the budget diagnostic, exactly when the
    /// run is still mid-step after `RUN_ATTEMPT_LIMIT` resolved attempts
    /// (a cyclic graph is legal, so a run-level attempt budget bounds the
    /// walk). The graph's name, topology and node set are unchanged, and
    /// every node keeps its name; nodes are held by mutable reference so
    /// that a node may carry private state across attempts (a retry
    /// counter, a cache) — only that private state may move. The caller's
    /// context is borrowed shared and each step works on a copy of it.
    #[verifier::loop_isolation(false)]
    pub fn run(&mut self, ctx: &Context, initial_state: S) -> (r: Result<S, GraphError>)
        requires
            old(self).wf(),
            ctx.wf(),
        ensures
            final(self).wf(),
            final(self).spec_name() == old(self).spec_name(),
            final(self).spec_node_keys() == old(self).spec_node_keys(),
            final(self).spec_edges() == old(self).spec_edges(),
            final(self).spec_configs() == old(self).spec_configs(),
            forall|k: Seq<char>| #[trigger]
                final(self).spec_nodes().dom().contains(k) <==> old(
                    self,
                ).spec_nodes().dom().contains(k),
            forall|k: Seq<char>| #[trigger]
                old(self).spec_nodes().dom().contains(k) ==> final(self).spec_nodes()[k].spec_name()
                    == old(self).spec_nodes()[k].spec_name(),
            spec_run_result::<S, R>(
                old(self).spec_node_keys(),
                old(self).spec_edges(),
                old(self).spec_configs(),
                ctx@,
                initial_state@,
                spec_result_view::<S>(r),
            ),
    {
        let ghost keys = self.node_index.spec_key_views();
        let ghost edgs = self.edges@;
        let ghost cfgs = self.configs@;
        let ghost m_init = spec_initial_machine::<S>(ctx@, initial_state@);
        let mut m = RunMachine::new(ctx, initial_state);
        let mut budget: u64 = RUN_ATTEMPT_LIMIT;
        let ghost mut outs: Seq<AttemptOutcome<S>> = Seq::empty();
        let ghost mut ids: Seq<Seq<char>> = Seq::empty();
        proof {
            assert forall|o2: Seq<AttemptOutcome<S>>, i2: Seq<Seq<char>>|
                true implies #[trigger] spec_run_from::<S, R>(keys, edgs, cfgs, m_init, outs + o2, ids + i2)
                == spec_run_from::<S, R>(keys, edgs, cfgs, m@, o2, i2) by {
                assert(outs + o2 =~= o2);
                assert(ids + i2 =~= i2);
            }
            assert forall|o2: Seq<AttemptOutcome<S>>, i2: Seq<Seq<char>>|
                true implies #[trigger] spec_run_unfinished::<S, R>(
                keys,
                edgs,
                cfgs,
                m_init,
                outs + o2,
                ids + i2,
            ) == spec_run_unfinished::<S, R>(keys, edgs, cfgs, m@, o2, i2) by {
                assert(outs + o2 =~= o2);
                assert(ids + i2 =~= i2);
            }
        }
        loop
            invariant
                self.wf(),
                self.node_index == old(self).node_index,
                self.node_index.spec_key_views() == keys,
                self.edges@ == edgs,
                self.configs@ == cfgs,
                self.graph_name@ == old(self).spec_name(),
                self.nodes@.len() == old(self).nodes@.len(),
                forall|j: int|
                    0 <= j < self.nodes@.len() ==> (#[trigger] self.nodes@[j]).spec_name() == old(
                        self,
                    ).nodes@[j].spec_name(),
                m.wf(),
                outs.len() == ids.len(),
                outs.len() + budget == RUN_ATTEMPT_LIMIT,
                (m@.phase matches RunPhaseModel::Attempting { node, .. } ==> keys.contains(node)),
                forall|o2: Seq<AttemptOutcome<S>>, i2: Seq<Seq<char>>|
                    #![trigger spec_run_from::<S, R>(keys, edgs, cfgs, m@, o2, i2)]
                    (spec_run_from::<S, R>(keys, edgs, cfgs, m@, o2, i2) is Some)
                        ==> spec_run_from::<S, R>(keys, edgs, cfgs, m_init, outs + o2, ids + i2)
                        == spec_run_from::<S, R>(keys, edgs, cfgs, m@, o2, i2),
                forall|o2: Seq<AttemptOutcome<S>>, i2: Seq<Seq<char>>|
                    #![trigger spec_run_unfinished::<S, R>(keys, edgs, cfgs, m@, o2, i2)]
                    spec_run_unfinished::<S, R>(keys, edgs, cfgs, m@, o2, i2)
                        ==> spec_run_unfinished::<S, R>(
                        keys,
                        edgs,
                        cfgs,
                        m_init,
                        outs + o2,
                        ids + i2,
                    ),
            decreases budget,
        {
            let ghost m_pre_adv = m@;
            m = m.advance(&self.node_index, &self.edges, &self.configs);
            proof {
                assert(m@ == spec_advance::<S, R>(m_pre_adv, keys, edgs, cfgs));
                assert(!(m@.phase is Ready));
                assert(spec_advance::<S, R>(m@, keys, edgs, cfgs) == m@);
                assert forall|o2: Seq<AttemptOutcome<S>>, i2: Seq<Seq<char>>|
                    (#[trigger] spec_run_from::<S, R>(keys, edgs, cfgs, m@, o2, i2) is Some)
                        implies spec_run_from::<S, R>(keys, edgs, cfgs, m_init, outs + o2, ids + i2)
                    == spec_run_from::<S, R>(keys, edgs, cfgs, m@, o2, i2) by {
                    assert(spec_run_from::<S, R>(keys, edgs, cfgs, m_pre_adv, o2, i2)
                        == spec_run_from::<S, R>(keys, edgs, cfgs, m@, o2, i2));
                }
                assert forall|o2: Seq<AttemptOutcome<S>>, i2: Seq<Seq<char>>|
                    #[trigger] spec_run_unfinished::<S, R>(keys, edgs, cfgs, m@, o2, i2)
                        implies spec_run_unfinished::<S, R>(
                    keys,
                    edgs,
                    cfgs,
                    m_init,
                    outs + o2,
                    ids + i2,
                ) by {
                    assert(spec_run_unfinished::<S, R>(keys, edgs, cfgs, m_pre_adv, o2, i2)
                        == spec_run_unfinished::<S, R>(keys, edgs, cfgs, m@, o2, i2));
                }
            }
            let step: Option<(String, Context, S)> = match &m.phase {
                RunPhase::Attempting { node, attempt_ctx, state, .. } => Some(
                    (node.clone(), attempt_ctx.clone(), state.clone_state()),
                ),
                _ => None,
            };
            match step {
                None => {
                    proof {
                        assert(m@.phase is Done);
                    }
                    let ghost mm = m@;
                    let res = m.into_result();
                    match res {
                        Some(result) => {
                            proof {
                                let rv = spec_result_view::<S>(result);
                                assert(spec_run_from::<S, R>(
                                    keys,
                                    edgs,
                                    cfgs,
                                    mm,
                                    Seq::<AttemptOutcome<S>>::empty(),
                                    Seq::<Seq<char>>::empty(),
                                ) == Some(rv));
                                assert(outs + Seq::<AttemptOutcome<S>>::empty() =~= outs);
                                assert(ids + Seq::<Seq<char>>::empty() =~= ids);
                                assert(spec_run_from::<S, R>(keys, edgs, cfgs, m_init, outs, ids)
                                    == Some(rv));
                            }
                            return result;
                        },
                        None => {
                            proof {
                                assert(false);
                            }
                            return Err(GraphError::Other(String::new()));
                        },
                    }
                },
                Some(parts) => {
                    let (name, actx, st) = parts;
                    if budget == 0 {
                        proof {
                            assert(m@.phase is Attempting);
                            assert(spec_advance::<S, R>(m@, keys, edgs, cfgs) == m@);
                            assert(spec_run_unfinished::<S, R>(
                                keys,
                                edgs,
                                cfgs,
                                m@,
                                Seq::<AttemptOutcome<S>>::empty(),
                                Seq::<Seq<char>>::empty(),
                            ));
                            assert(outs + Seq::<AttemptOutcome<S>>::empty() =~= outs);
                            assert(ids + Seq::<Seq<char>>::empty() =~= ids);
                            assert(spec_run_unfinished::<S, R>(keys, edgs, cfgs, m_init, outs, ids));
                            assert(outs.len() == RUN_ATTEMPT_LIMIT as nat);
                        }
                        return Err(
                            GraphError::ExecutionError("Run attempt budget exhausted".to_owned()),
                        );
                    }
                    budget = budget - 1;
                    proof {
                        self.node_index.lemma_dom_is_keys();
                    }
                    let iopt = self.node_index.get(name.as_str());
                    let i: usize = match iopt {
                        Some(ii) => *ii,
                        None => {
                            proof {
                                assert(false);
                            }
                            0
                        },
                    };
                    let ghost m_pre = m@;
                    let node_ref = &mut self.nodes[i];
                    let pres = node_ref.process(&actx, st);
                    let ghost oc = AttemptOutcome::Finished(pres);
                    m = m.feed(AttemptOutcome::Finished(pres));
                    proof {
                        assert forall|j: int| 0 <= j < self.nodes@.len() implies (
                        #[trigger] self.nodes@[j]).spec_valid() by {
                            if j != i {
                            }
                        }
                        assert forall|j: int| 0 <= j < self.nodes@.len() implies (
                        #[trigger] self.nodes@[j]).spec_name() == old(self).nodes@[j].spec_name() by {
                            if j != i {
                            }
                        }
                        let id = choose|id: Seq<char>| m@ == spec_feed::<S>(m_pre, oc, id);
                        let outs_old = outs;
                        let ids_old = ids;
                        outs = outs.push(oc);
                        ids = ids.push(id);
                        assert forall|o2: Seq<AttemptOutcome<S>>, i2: Seq<Seq<char>>|
                            (#[trigger] spec_run_from::<S, R>(keys, edgs, cfgs, m@, o2, i2)
                                is Some) implies spec_run_from::<S, R>(
                            keys,
                            edgs,
                            cfgs,
                            m_init,
                            outs + o2,
                            ids + i2,
                        ) == spec_run_from::<S, R>(keys, edgs, cfgs, m@, o2, i2) by {
                            let o3 = seq![oc] + o2;
                            let i3 = seq![id] + i2;
                            assert(spec_advance::<S, R>(m_pre, keys, edgs, cfgs) == m_pre);
                            assert(o3[0] == oc && i3[0] == id);
                            assert(o3.drop_first() =~= o2);
                            assert(i3.drop_first() =~= i2);
                            assert(spec_run_from::<S, R>(keys, edgs, cfgs, m_pre, o3, i3)
                                == spec_run_from::<S, R>(
                                keys,
                                edgs,
                                cfgs,
                                spec_feed::<S>(m_pre, oc, id),
                                o2,
                                i2,
                            ));
                            assert(spec_feed::<S>(m_pre, oc, id) == m@);
                            assert(outs_old + o3 =~= outs + o2);
                            assert(ids_old + i3 =~= ids + i2);
                        }
                        assert forall|o2: Seq<AttemptOutcome<S>>, i2: Seq<Seq<char>>|
                            #[trigger] spec_run_unfinished::<S, R>(keys, edgs, cfgs, m@, o2, i2)
                                implies spec_run_unfinished::<S, R>(
                            keys,
                            edgs,
                            cfgs,
                            m_init,
                            outs + o2,
                            ids + i2,
                        ) by {
                            let o3 = seq![oc] + o2;
                            let i3 = seq![id] + i2;
                            assert(spec_advance::<S, R>(m_pre, keys, edgs, cfgs) == m_pre);
                            assert(o3[0] == oc && i3[0] == id);
                            assert(o3.drop_first() =~= o2);
                            assert(i3.drop_first() =~= i2);
                            assert(spec_run_unfinished::<S, R>(keys, edgs, cfgs, m_pre, o3, i3)
                                == spec_run_unfinished::<S, R>(
                                keys,
                                edgs,
                                cfgs,
                                spec_feed::<S>(m_pre, oc, id),
                                o2,
                                i2,
                            ));
                            assert(spec_feed::<S>(m_pre, oc, id) == m@);
                            assert(outs_old + o3 =~= outs + o2);
                            assert(ids_old + i3 =~= ids + i2);
                        }
                    }
                },
            }
        }
    }
}

impl<S: GraphState, N: Node<S>, R: Router<S>> Node<S> for Graph<S, N, R, Built> {
    closed spec fn spec_name(&self) -> Seq<char> {
        self.graph_name@
    }

    open spec fn spec_valid(&self) -> bool {
        self.wf()
    }

    fn name(&self) -> (r: &str) {
        self.graph_name.as_str()
    }

    /// A built graph is itself a node: processing delegates to `run`, a
    /// successful run becomes a full-state output, and a failed run is
    /// wrapped as a subgraph-execution error carrying the rendered inner
    /// error. This is how graphs compose.
    fn process(&mut self, ctx: &Context, state: S) -> (r: Result<NodeOutput<S>, NodeError>)
        ensures
            exists|res: Result<S::V, GraphErrorView>|
                #[trigger] spec_subgraph_output::<S>(res, r) && spec_run_result::<S, R>(
                    old(self).spec_node_keys(),
                    old(self).spec_edges(),
                    old(self).spec_configs(),
                    ctx@,
                    state@,
                    res,
                ),
    {
        let out = self.run(ctx, state);
        match out {
            Ok(s) => {
                let r = Ok(NodeOutput::Full(s));
                proof {
                    let ghost res = spec_result_view::<S>(out);
                    assert(spec_subgraph_output::<S>(res, r));
                }
                r
            },
            Err(e) => {
                let ghost res = spec_result_view::<S>(out);
                let msg = e.message();
                let r = Err(NodeError::SubgraphExecution(msg));
                proof {
                    assert(spec_subgraph_output::<S>(res, r));
                }
                r
            },
        }
    }
}

/// A built graph participates as a node under the very name it was
/// created with: its node-facing name is its graph name.
pub proof fn lemma_graph_node_name<S: GraphState, N: Node<S>, R: Router<S>>(
    g: &Graph<S, N, R, Built>,
)
    ensures
        <Graph<S, N, R, Built> as Node<S>>::spec_name(g) == g.spec_name(),
{
}

/// Conditional routing: where a conditional edge leaves `cursor`, the
/// successor is exactly what the router picks on the current state — the
/// engine neither caches nor alters it.
pub proof fn lemma_conditional_routing<S: GraphState, R: Router<S>>(
    node_keys: Seq<Seq<char>>,
    edges: Map<Seq<char>, Edge<R>>,
    cursor: Seq<char>,
    state: S::V,
)
    requires
        edges.dom().contains(cursor),
    ensures
        (edges[cursor] matches Edge::Conditional(rt) ==> crate::machine::spec_successor::<S, R>(
            node_keys,
            edges,
            cursor,
            state,
        ) == Ok::<Seq<char>, GraphErrorView>(rt.spec_route(state))),
{
}

/// Subgraph composition: running a parent graph whose single node wraps a
/// built graph `G` — with edges from the start sentinel to the wrapped
/// node and from it to the end sentinel — yields exactly the state the
/// inner run produced, whenever the wrapped node hands back that state as
/// a full output (which `process` on a built graph does for a successful
/// inner run).
pub proof fn lemma_subgraph_composition<S: GraphState, R: Router<S>>(
    gname: Seq<char>,
    ctx: ContextView,
    init: S::V,
    v: S::V,
    wrap_out: AttemptOutcome<S>,
    to: String,
    endto: String,
    edges_o: Map<Seq<char>, Edge<R>>,
    configs_o: Map<Seq<char>, NodeConfig>,
    id: Seq<char>,
)
    requires
        gname != spec_start(),
        gname != spec_end(),
        to@ == gname,
        endto@ == spec_end(),
        edges_o == Map::<Seq<char>, Edge<R>>::empty().insert(spec_start(), Edge::Direct(to)).insert(
            gname,
            Edge::Direct(endto),
        ),
        (wrap_out matches AttemptOutcome::Finished(res) && res matches Ok(out) && out matches NodeOutput::Full(s)
            && s@ == v),
    ensures
        spec_run_from::<S, R>(
            seq![gname],
            edges_o,
            configs_o,
            spec_initial_machine::<S>(ctx, init),
            seq![wrap_out],
            seq![id],
        ) == Some(Ok::<S::V, GraphErrorView>(v)),
{
    let keys = seq![gname];
    let m0 = spec_initial_machine::<S>(ctx, init);
    assert(edges_o.dom().contains(spec_start()));
    assert(edges_o.dom().contains(gname));
    assert(edges_o[spec_start()] == Edge::<R>::Direct(to));
    assert(edges_o[gname] == Edge::<R>::Direct(endto));
    assert(keys.contains(gname)) by {
        assert(keys[0] == gname);
    }
    let m1 = spec_advance::<S, R>(m0, keys, edges_o, configs_o);
    assert(m1.phase matches RunPhaseModel::Attempting { node, state, .. } && node == gname && state
        == init);
    let m2 = spec_feed::<S>(m1, wrap_out, id);
    assert(m2.phase matches RunPhaseModel::Ready { cursor, state } && cursor == gname && state
        == v);
    let m3 = spec_advance::<S, R>(m2, keys, edges_o, configs_o);
    assert(m3.phase matches RunPhaseModel::Done { result } && result == Ok::<
        S::V,
        GraphErrorView,
    >(v));
    assert(seq![wrap_out][0] == wrap_out);
    assert(seq![id][0] == id);
    assert(seq![wrap_out].drop_first() =~= Seq::<AttemptOutcome<S>>::empty());
    assert(seq![id].drop_first() =~= Seq::<Seq<char>>::empty());
    assert(spec_run_from::<S, R>(
        keys,
        edges_o,
        configs_o,
        m2,
        Seq::<AttemptOutcome<S>>::empty(),
        Seq::<Seq<char>>::empty(),
    ) == Some(Ok::<S::V, GraphErrorView>(v)));
    assert(spec_run_from::<S, R>(keys, edges_o, configs_o, m0, seq![wrap_out], seq![id])
        == spec_run_from::<S, R>(
        keys,
        edges_o,
        configs_o,
        spec_feed::<S>(m1, wrap_out, id),
        seq![wrap_out].drop_first(),
        seq![id].drop_first(),
    ));
}

} // verus!
