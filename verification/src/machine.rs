//! The run machine: one graph run as an explicit step machine. The
//! machine carries the current state and cursor; `advance` selects the
//! successor of the cursor (consulting edges, the start fallback, and the
//! node set), and `feed` resolves one attempt of the pending node step,
//! applying the scheduling policy — bounded retries with a fresh retry
//! context per attempt, and the timeout diagnostic on exhaustion. Every
//! transition is pinned down by a spec-level twin over the machine's
//! model, so the scheduling laws (attempt-count bound, state isolation
//! under failure, retry-context chaining) are proved once about the model
//! and hold of every run, however it is driven.

use vstd::prelude::*;
use vstd::string::StringExecFns;
use crate::config::{spec_default_config, NodeConfig};
use crate::context::{spec_next_context, Context, ContextView};
use crate::edge::{Edge, Router};
use crate::error::{GraphError, GraphErrorView, NodeError, NodeErrorView};
use crate::graph::{spec_end, spec_start, END, START};
use crate::registry::Registry;
use crate::state::{apply_updates, spec_fold_output, GraphState, NodeOutput};
use crate::text::{spec_decimal, str_equal, u64_to_string};

verus! {

/// What one attempt of a node step came to.
pub enum AttemptOutcome<S: GraphState> {
    /// The node's processing resolved with this result.
    Finished(Result<NodeOutput<S>, NodeError>),
    /// The attempt hit its per-attempt deadline.
    TimedOut,
}

/// Where a run stands.
pub enum RunPhase<S: GraphState> {
    /// About to select the successor of `cursor`.
    Ready { cursor: String, state: S },
    /// A node step is in progress: `attempts` attempts have already
    /// resolved, and the next attempt runs under `attempt_ctx`.
    Attempting {
        node: String,
        attempts: usize,
        attempt_ctx: Context,
        config: NodeConfig,
        state: S,
    },
    /// The run is over.
    Done { result: Result<S, GraphError> },
}

/// One graph run in flight.
pub struct RunMachine<S: GraphState> {
    /// The context the run was started with; each node step's first
    /// attempt runs under a copy of it.
    pub base_ctx: Context,
    /// Where the run stands.
    pub phase: RunPhase<S>,
}

/// Spec-level shape of a run phase.
pub enum RunPhaseModel<S: GraphState> {
    Ready { cursor: Seq<char>, state: S::V },
    Attempting {
        node: Seq<char>,
        attempts: usize,
        attempt_ctx: ContextView,
        config: NodeConfig,
        state: S::V,
    },
    Done { result: Result<S::V, GraphErrorView> },
}

/// Spec-level shape of a run machine.
pub struct RunMachineModel<S: GraphState> {
    pub base_ctx: ContextView,
    pub phase: RunPhaseModel<S>,
}

/// The view of a run result: the state's view on success, the error's
/// view on failure.
pub open spec fn spec_result_view<S: GraphState>(r: Result<S, GraphError>) -> Result<
    S::V,
    GraphErrorView,
> {
    match r {
        Ok(s) => Ok(s@),
        Err(e) => Err(e@),
    }
}

impl<S: GraphState> View for RunPhase<S> {
    type V = RunPhaseModel<S>;

    open spec fn view(&self) -> RunPhaseModel<S> {
        match self {
            RunPhase::Ready { cursor, state } => (RunPhaseModel::Ready {
                cursor: cursor@,
                state: state@,
            }),
            RunPhase::Attempting { node, attempts, attempt_ctx, config, state } => (RunPhaseModel::Attempting {
                node: node@,
                attempts: *attempts,
                attempt_ctx: attempt_ctx@,
                config: *config,
                state: state@,
            }),
            RunPhase::Done { result } => (RunPhaseModel::Done {
                result: spec_result_view::<S>(*result),
            }),
        }
    }
}

impl<S: GraphState> View for RunMachine<S> {
    type V = RunMachineModel<S>;

    open spec fn view(&self) -> RunMachineModel<S> {
        RunMachineModel { base_ctx: self.base_ctx@, phase: self.phase@ }
    }
}

/// The diagnostic line used when a non-start node has no outgoing edge.
pub open spec fn spec_no_transition_message(cursor: Seq<char>) -> Seq<char> {
    "No transition defined from node: "@ + cursor
}

/// The diagnostic line used when the graph has no nodes at all.
pub open spec fn spec_no_nodes_message() -> Seq<char> {
    "Graph has no nodes"@
}

/// The diagnostic line of a step that timed out on its last attempt.
pub open spec fn spec_timeout_message(node: Seq<char>, attempts: usize) -> Seq<char> {
    "Node "@ + node + " timed out after "@ + spec_decimal(attempts as nat) + " attempts"@
}

/// Renders the timeout diagnostic.
pub fn timeout_message(node: &str, attempts: usize) -> (r: String)
    ensures
        r@ == spec_timeout_message(node@, attempts),
{
    let mut s: String = "Node ".to_owned();
    s.append(node);
    s.append(" timed out after ");
    let d = u64_to_string(attempts as u64);
    s.append(d.as_str());
    s.append(" attempts");
    s
}

/// The successor of `cursor` under the edge model: a registered edge
/// decides (a conditional edge routes on the current state); the start
/// sentinel without an edge falls back to the first registered node, or
/// fails when there are none; any other node without an edge is a missing
/// transition.
pub open spec fn spec_successor<S: GraphState, R: Router<S>>(
    node_keys: Seq<Seq<char>>,
    edges: Map<Seq<char>, Edge<R>>,
    cursor: Seq<char>,
    state: S::V,
) -> Result<Seq<char>, GraphErrorView> {
    if edges.dom().contains(cursor) {
        match edges[cursor] {
            Edge::Direct(to) => Ok(to@),
            Edge::Conditional(r) => Ok(r.spec_route(state)),
        }
    } else if cursor == spec_start() {
        if node_keys.len() == 0 {
            Err(GraphErrorView::InvalidState(spec_no_nodes_message()))
        } else {
            Ok(node_keys[0])
        }
    } else {
        Err(GraphErrorView::InvalidTransition(spec_no_transition_message(cursor)))
    }
}

/// What `advance` does to the machine model: from `Ready`, select the
/// successor and either finish the run (end sentinel reached, or a
/// structural error), or open a node step with zero attempts taken, the
/// base context, and the node's configuration (or the default). From any
/// other phase, nothing.
pub open spec fn spec_advance<S: GraphState, R: Router<S>>(
    m: RunMachineModel<S>,
    node_keys: Seq<Seq<char>>,
    edges: Map<Seq<char>, Edge<R>>,
    configs: Map<Seq<char>, NodeConfig>,
) -> RunMachineModel<S> {
    match m.phase {
        RunPhaseModel::Ready { cursor, state } => {
            match spec_successor::<S, R>(node_keys, edges, cursor, state) {
                Err(e) => (RunMachineModel {
                    phase: RunPhaseModel::Done { result: Err(e) },
                    ..m
                }),
                Ok(next) => if next == spec_end() {
                    RunMachineModel { phase: RunPhaseModel::Done { result: Ok(state) }, ..m }
                } else if !node_keys.contains(next) {
                    RunMachineModel {
                        phase: RunPhaseModel::Done {
                            result: Err(GraphErrorView::NodeNotFound(next)),
                        },
                        ..m
                    }
                } else {
                    RunMachineModel {
                        phase: RunPhaseModel::Attempting {
                            node: next,
                            attempts: 0,
                            attempt_ctx: m.base_ctx,
                            config: if configs.dom().contains(next) {
                                configs[next]
                            } else {
                                spec_default_config()
                            },
                            state,
                        },
                        ..m
                    }
                },
            }
        },
        _ => m,
    }
}

/// `attempts + 1`, stopping at the top of the range.
pub open spec fn spec_inc(attempts: usize) -> usize {
    if attempts == usize::MAX {
        attempts
    } else {
        (attempts + 1) as usize
    }
}

/// What `feed` does to the machine model when one attempt resolves as
/// `outcome`. A successful attempt folds the output into the state and
/// moves the cursor onto the node. A failed or timed-out attempt retries
/// — with the same input state, and under a next-node context whose fresh
/// identifier is `fresh_id` — as long as attempts remain; otherwise the
/// run is over, surfacing the node's error, or the timeout diagnostic.
/// From any phase but `Attempting`, nothing.
pub open spec fn spec_feed<S: GraphState>(
    m: RunMachineModel<S>,
    outcome: AttemptOutcome<S>,
    fresh_id: Seq<char>,
) -> RunMachineModel<S> {
    match m.phase {
        RunPhaseModel::Attempting { node, attempts, attempt_ctx, config, state } => {
            let n = spec_inc(attempts);
            match outcome {
                AttemptOutcome::Finished(Ok(out)) => (RunMachineModel {
                    phase: RunPhaseModel::Ready {
                        cursor: node,
                        state: spec_fold_output::<S>(state, out),
                    },
                    ..m
                }),
                AttemptOutcome::Finished(Err(e)) => if n < config.max_retries {
                    RunMachineModel {
                        phase: RunPhaseModel::Attempting {
                            node,
                            attempts: n,
                            attempt_ctx: spec_next_context(attempt_ctx, fresh_id),
                            config,
                            state,
                        },
                        ..m
                    }
                } else {
                    RunMachineModel {
                        phase: RunPhaseModel::Done {
                            result: Err(GraphErrorView::Node(e@)),
                        },
                        ..m
                    }
                },
                AttemptOutcome::TimedOut => if n < config.max_retries {
                    RunMachineModel {
                        phase: RunPhaseModel::Attempting {
                            node,
                            attempts: n,
                            attempt_ctx: spec_next_context(attempt_ctx, fresh_id),
                            config,
                            state,
                        },
                        ..m
                    }
                } else {
                    RunMachineModel {
                        phase: RunPhaseModel::Done {
                            result: Err(
                                GraphErrorView::Node(
                                    NodeErrorView::Execution(spec_timeout_message(node, n)),
                                ),
                            ),
                        },
                        ..m
                    }
                },
            }
        },
        _ => m,
    }
}

/// Folds a node's output into the current state: a full output replaces
/// it, an update sequence is applied in order.
pub fn fold_output<S: GraphState>(state: S, out: NodeOutput<S>) -> (r: S)
    ensures
        r@ == spec_fold_output::<S>(state@, out),
{
    match out {
        NodeOutput::Full(s) => s,
        NodeOutput::Updates(us) => {
            let mut st = state;
            apply_updates(&mut st, us);
            st
        },
    }
}

impl<S: GraphState> RunMachine<S> {
    /// The contexts the machine holds are well formed.
    pub open spec fn wf(&self) -> bool {
        &&& self.base_ctx.wf()
        &&& (self.phase matches RunPhase::Attempting { attempt_ctx, .. } ==> attempt_ctx.wf())
    }

    /// A machine standing at the start sentinel with the initial state.
    pub fn new(ctx: &Context, initial: S) -> (r: Self)
        requires
            ctx.wf(),
        ensures
            r.wf(),
            r@ == (RunMachineModel::<S> {
                base_ctx: ctx@,
                phase: RunPhaseModel::Ready { cursor: spec_start(), state: initial@ },
            }),
    {
        RunMachine {
            base_ctx: ctx.clone(),
            phase: RunPhase::Ready { cursor: START.to_owned(), state: initial },
        }
    }

    /// Selects the successor of the cursor, if the machine is ready for
    /// that; exactly `spec_advance` on the model.
    pub fn advance<R: Router<S>>(
        self,
        node_index: &Registry<usize>,
        edges: &Registry<Edge<R>>,
        configs: &Registry<NodeConfig>,
    ) -> (r: Self)
        requires
            self.wf(),
            node_index.wf(),
            edges.wf(),
            configs.wf(),
        ensures
            r.wf(),
            r@ == spec_advance::<S, R>(
                self@,
                node_index.spec_key_views(),
                edges@,
                configs@,
            ),
    {
        let RunMachine { base_ctx, phase } = self;
        match phase {
            RunPhase::Ready { cursor, state } => {
                proof {
                    node_index.lemma_dom_is_keys();
                }
                let next: String = match edges.get(cursor.as_str()) {
                    Some(e) => match e {
                        Edge::Direct(to) => to.clone(),
                        Edge::Conditional(router) => router.route(&state),
                    },
                    None => {
                        if str_equal(cursor.as_str(), START) {
                            if node_index.is_empty() {
                                return RunMachine {
                                    base_ctx,
                                    phase: RunPhase::Done {
                                        result: Err(
                                            GraphError::InvalidState("Graph has no nodes".to_owned()),
                                        ),
                                    },
                                };
                            } else {
                                node_index.first_key().clone()
                            }
                        } else {
                            let mut msg: String = "No transition defined from node: ".to_owned();
                            msg.append(cursor.as_str());
                            return RunMachine {
                                base_ctx,
                                phase: RunPhase::Done {
                                    result: Err(GraphError::InvalidTransition(msg)),
                                },
                            };
                        }
                    },
                };
                if str_equal(next.as_str(), END) {
                    return RunMachine { base_ctx, phase: RunPhase::Done { result: Ok(state) } };
                }
                if !node_index.contains_key(next.as_str()) {
                    return RunMachine {
                        base_ctx,
                        phase: RunPhase::Done { result: Err(GraphError::NodeNotFound(next)) },
                    };
                }
                let config: NodeConfig = match configs.get(next.as_str()) {
                    Some(c) => *c,
                    None => NodeConfig::default(),
                };
                let attempt_ctx = base_ctx.clone();
                RunMachine {
                    base_ctx,
                    phase: RunPhase::Attempting { node: next, attempts: 0, attempt_ctx, config, state },
                }
            },
            ph => RunMachine { base_ctx, phase: ph },
        }
    }

    /// Resolves one attempt of the pending node step; exactly `spec_feed`
    /// on the model, for some fresh identifier.
    pub fn feed(self, outcome: AttemptOutcome<S>) -> (r: Self)
        requires
            self.wf(),
        ensures
            r.wf(),
            exists|id: Seq<char>| r@ == spec_feed::<S>(self@, outcome, id),
    {
        let ghost m0 = self@;
        let ghost o = outcome;
        let RunMachine { base_ctx, phase } = self;
        match phase {
            RunPhase::Attempting { node, attempts, attempt_ctx, config, state } => {
                let n: usize = if attempts == usize::MAX {
                    attempts
                } else {
                    attempts + 1
                };
                match outcome {
                    AttemptOutcome::Finished(res) => match res {
                        Ok(out) => {
                            let new_state = fold_output(state, out);
                            let r = RunMachine {
                                base_ctx,
                                phase: RunPhase::Ready { cursor: node, state: new_state },
                            };
                            proof {
                                assert(r@ == spec_feed::<S>(m0, o, Seq::<char>::empty()));
                            }
                            r
                        },
                        Err(e) => {
                            if n < config.max_retries {
                                let next_ctx = attempt_ctx.next_node_context();
                                let r = RunMachine {
                                    base_ctx,
                                    phase: RunPhase::Attempting {
                                        node,
                                        attempts: n,
                                        attempt_ctx: next_ctx,
                                        config,
                                        state,
                                    },
                                };
                                proof {
                                    assert(r@ == spec_feed::<S>(m0, o, next_ctx@.trace_id));
                                }
                                r
                            } else {
                                let r = RunMachine {
                                    base_ctx,
                                    phase: RunPhase::Done { result: Err(GraphError::Node(e)) },
                                };
                                proof {
                                    assert(r@ == spec_feed::<S>(m0, o, Seq::<char>::empty()));
                                }
                                r
                            }
                        },
                    },
                    AttemptOutcome::TimedOut => {
                        if n < config.max_retries {
                            let next_ctx = attempt_ctx.next_node_context();
                            let r = RunMachine {
                                base_ctx,
                                phase: RunPhase::Attempting {
                                    node,
                                    attempts: n,
                                    attempt_ctx: next_ctx,
                                    config,
                                    state,
                                },
                            };
                            proof {
                                assert(r@ == spec_feed::<S>(m0, o, next_ctx@.trace_id));
                            }
                            r
                        } else {
                            let msg = timeout_message(node.as_str(), n);
                            let r = RunMachine {
                                base_ctx,
                                phase: RunPhase::Done {
                                    result: Err(GraphError::Node(NodeError::Execution(msg))),
                                },
                            };
                            proof {
                                assert(r@ == spec_feed::<S>(m0, o, Seq::<char>::empty()));
                            }
                            r
                        }
                    },
                }
            },
            ph => {
                let r = RunMachine { base_ctx, phase: ph };
                proof {
                    assert(r@ == spec_feed::<S>(m0, o, Seq::<char>::empty()));
                }
                r
            },
        }
    }

    /// The run's outcome, once the machine is done.
    pub fn into_result(self) -> (r: Option<Result<S, GraphError>>)
        ensures
            (match self@.phase {
                RunPhaseModel::Done { result } => (r matches Some(rr) && spec_result_view::<S>(rr)
                    == result),
                _ => r is None,
            }),
    {
        match self.phase {
            RunPhase::Done { result } => Some(result),
            _ => None,
        }
    }
}

/// Whether an attempt outcome is a failure: a node error or a timeout.
pub open spec fn spec_outcome_fails<S: GraphState>(o: AttemptOutcome<S>) -> bool {
    match o {
        AttemptOutcome::Finished(res) => res is Err,
        AttemptOutcome::TimedOut => true,
    }
}

/// The error a step surfaces when its `n`-th and last attempt resolves
/// as the failing outcome `o`: the node's own error, or the timeout
/// diagnostic naming the attempt count.
pub open spec fn spec_surfaced_error<S: GraphState>(
    node: Seq<char>,
    n: usize,
    o: AttemptOutcome<S>,
) -> GraphErrorView {
    match o {
        AttemptOutcome::Finished(res) => match res {
            Err(e) => GraphErrorView::Node(e@),
            Ok(_) => arbitrary(),
        },
        AttemptOutcome::TimedOut => GraphErrorView::Node(
            NodeErrorView::Execution(spec_timeout_message(node, n)),
        ),
    }
}

/// Resolving a sequence of attempt outcomes, one `spec_feed` at a time.
pub open spec fn spec_feed_all<S: GraphState>(
    m: RunMachineModel<S>,
    outs: Seq<AttemptOutcome<S>>,
    ids: Seq<Seq<char>>,
) -> RunMachineModel<S>
    decreases outs.len(),
{
    if outs.len() == 0 || ids.len() == 0 {
        m
    } else {
        spec_feed_all::<S>(spec_feed::<S>(m, outs[0], ids[0]), outs.drop_first(), ids.drop_first())
    }
}

/// State isolation under failure, and retry-context chaining: when an
/// attempt fails and attempts remain, the step keeps attempting the same
/// node, with the same input state and configuration — nothing of the
/// failed attempt is ever applied — and the next attempt's context points
/// back at the failed attempt's context, metadata kept, under a fresh
/// trace identifier.
pub proof fn lemma_retry_isolation<S: GraphState>(
    m: RunMachineModel<S>,
    o: AttemptOutcome<S>,
    id: Seq<char>,
)
    requires
        spec_outcome_fails::<S>(o),
        (m.phase matches RunPhaseModel::Attempting { attempts, config, .. } && spec_inc(attempts)
            < config.max_retries),
    ensures
        (m.phase matches RunPhaseModel::Attempting { node, attempts, attempt_ctx, config, state }
            ==> spec_feed::<S>(m, o, id) == (RunMachineModel::<S> {
            base_ctx: m.base_ctx,
            phase: RunPhaseModel::Attempting {
                node,
                attempts: spec_inc(attempts),
                attempt_ctx: spec_next_context(attempt_ctx, id),
                config,
                state,
            },
        }) && spec_next_context(attempt_ctx, id).parent_trace_id == Some(attempt_ctx.trace_id)
            && spec_next_context(attempt_ctx, id).metadata == attempt_ctx.metadata),
{
}

/// Helper for the attempt-count bound: from `attempts` attempts already
/// taken, feeding exactly the remaining budget of failing outcomes ends
/// the run with the last outcome's error, surfaced at the final attempt
/// number.
proof fn lemma_exhaust_from<S: GraphState>(
    m: RunMachineModel<S>,
    outs: Seq<AttemptOutcome<S>>,
    ids: Seq<Seq<char>>,
)
    requires
        forall|j: int| 0 <= j < outs.len() ==> spec_outcome_fails::<S>(#[trigger] outs[j]),
        ids.len() == outs.len(),
        outs.len() >= 1,
        (m.phase matches RunPhaseModel::Attempting { attempts, config, .. } && ((attempts
            < config.max_retries && outs.len() == config.max_retries - attempts) || (
        config.max_retries == 0 && attempts == 0 && outs.len() == 1))),
    ensures
        (m.phase matches RunPhaseModel::Attempting { node, attempts, config, .. }
            ==> spec_feed_all::<S>(m, outs, ids) == (RunMachineModel::<S> {
            base_ctx: m.base_ctx,
            phase: RunPhaseModel::Done {
                result: Err(
                    spec_surfaced_error::<S>(
                        node,
                        if config.max_retries == 0 {
                            1
                        } else {
                            config.max_retries
                        },
                        outs.last(),
                    ),
                ),
            },
        })),
    decreases outs.len(),
{
    match m.phase {
        RunPhaseModel::Attempting { node, attempts, attempt_ctx, config, state } => {
            let n = spec_inc(attempts);
            if outs.len() == 1 {
                assert(outs.last() == outs[0]);
                assert(spec_feed_all::<S>(m, outs, ids) == spec_feed_all::<S>(
                    spec_feed::<S>(m, outs[0], ids[0]),
                    outs.drop_first(),
                    ids.drop_first(),
                ));
                assert(outs.drop_first().len() == 0);
            } else {
                assert(n < config.max_retries);
                let m2 = spec_feed::<S>(m, outs[0], ids[0]);
                assert(m2.phase matches RunPhaseModel::Attempting {
                    attempts: a2,
                    config: c2,
                    node: n2,
                    ..
                } && a2 == n && c2 == config && n2 == node);
                assert forall|j: int| 0 <= j < outs.drop_first().len() implies spec_outcome_fails::<
                    S,
                >(#[trigger] outs.drop_first()[j]) by {
                    assert(outs.drop_first()[j] == outs[j + 1]);
                }
                lemma_exhaust_from::<S>(m2, outs.drop_first(), ids.drop_first());
                assert(outs.drop_first().last() == outs.last());
            }
        },
        _ => {},
    }
}

/// Attempt-count bound: a node step that has made no attempts yet and is
/// fed nothing but failing outcomes consumes exactly `max_retries` of
/// them (one, if `max_retries` is zero) — the total attempt count,
/// inclusive of the first attempt — and then ends the run surfacing the
/// last outcome's error: the node's own error, or the timeout diagnostic
/// naming the attempt count.
pub proof fn lemma_attempt_count_bound<S: GraphState>(
    m: RunMachineModel<S>,
    outs: Seq<AttemptOutcome<S>>,
    ids: Seq<Seq<char>>,
)
    requires
        forall|j: int| 0 <= j < outs.len() ==> spec_outcome_fails::<S>(#[trigger] outs[j]),
        ids.len() == outs.len(),
        (m.phase matches RunPhaseModel::Attempting { attempts, config, .. } && attempts == 0
            && outs.len() == if config.max_retries == 0 {
            1
        } else {
            config.max_retries
        }),
    ensures
        (m.phase matches RunPhaseModel::Attempting { node, config, .. } ==> spec_feed_all::<S>(
            m,
            outs,
            ids,
        ) == (RunMachineModel::<S> {
            base_ctx: m.base_ctx,
            phase: RunPhaseModel::Done {
                result: Err(spec_surfaced_error::<S>(node, outs.len() as usize, outs.last())),
            },
        })),
{
    lemma_exhaust_from::<S>(m, outs, ids);
}

} // verus!
