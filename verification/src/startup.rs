//! Startup as a sequential state machine.
//!
//! The machine offers the steps of the startup plan one at a time. Whoever
//! drives it performs the step offered and reports how it ended; the machine
//! keeps what the step left behind and moves on, or stops for good at the
//! first step that failed. When every step has succeeded it hands out the
//! composed node.

use std::sync::Arc;
use vstd::prelude::*;
use crate::action::StartupAction;
use crate::action::Subsystem;
use crate::action::Yield;
use crate::config::NodeConfig;
use crate::plan::lemma_plan_yields;
use crate::plan::lemma_yielded_concat;
use crate::plan::lemma_yields_once;
use crate::plan::spec_runs;
use crate::plan::spec_startup_plan;
use crate::plan::yielded;

verus! {

/// Why startup did not produce a node.
#[derive(Debug, PartialEq, Eq)]
pub enum StartupError<E> {
    /// The step at index `step` of the plan failed with `cause`. No later
    /// step was offered.
    StepFailed { step: usize, cause: E },
    /// The step at index `step` was reported to leave behind something else
    /// than a step of its kind does.
    UnexpectedOutcome { step: usize },
    /// The node was asked for while the step at index `step` was still to be
    /// performed.
    Incomplete { step: usize },
}

/// How a step ended.
#[derive(Debug)]
pub enum StepOutcome<S, H, E> {
    /// The step succeeded and left nothing for the node to keep.
    Done,
    /// The step succeeded and built the shared ledger state.
    LedgerState(Arc<S>),
    /// The step succeeded and launched a subsystem with this handle.
    Launched(H),
    /// The step failed.
    Failed(E),
}

/// The state of startup: the plan, how far it has been carried out, whether
/// it has failed, and what the steps so far have left behind.
#[verifier::ext_equal]
pub struct StartupState<S, H, E> {
    /// The steps of startup, in order.
    pub plan: Seq<StartupAction>,
    /// Number of steps that have succeeded.
    pub position: usize,
    /// The failure that stopped startup, if any.
    pub failure: Option<StartupError<E>>,
    /// The shared ledger state, once built.
    pub ledger_state: Option<Arc<S>>,
    /// The handles of the subsystems launched so far.
    pub handles: Map<Subsystem, H>,
}

impl<S, H, E> StartupState<S, H, E> {
    /// The state before the first step.
    pub open spec fn initial(plan: Seq<StartupAction>) -> Self {
        StartupState {
            plan,
            position: 0,
            failure: None,
            ledger_state: None,
            handles: Map::empty(),
        }
    }

    /// The step to perform next: the first step that has not succeeded yet,
    /// unless startup has failed or every step has succeeded.
    pub open spec fn next_action(self) -> Option<StartupAction> {
        if self.failure is None && self.position < self.plan.len() {
            Some(self.plan[self.position as int])
        } else {
            None
        }
    }

    /// Whether every step has succeeded.
    pub open spec fn complete(self) -> bool {
        self.failure is None && self.position >= self.plan.len()
    }

    /// The state with `failure` recorded.
    pub open spec fn failed(self, failure: StartupError<E>) -> Self {
        StartupState { failure: Some(failure), ..self }
    }

    /// The state after the report that the step offered ended with
    /// `outcome`. Where no step is offered the report changes nothing. A
    /// failure is recorded with its cause. A success advances past the step
    /// and keeps what it left behind, provided that is what a step of its
    /// kind yields; otherwise the mismatch is recorded as a failure.
    pub open spec fn advance(self, outcome: StepOutcome<S, H, E>) -> Self {
        match self.next_action() {
            None => self,
            Some(action) => {
                let past = (self.position + 1) as usize;
                match (outcome, action.spec_yields()) {
                    (StepOutcome::Failed(cause), _) => self.failed(
                        StartupError::StepFailed { step: self.position, cause },
                    ),
                    (StepOutcome::Done, Yield::Nothing) => StartupState { position: past, ..self },
                    (StepOutcome::LedgerState(state), Yield::LedgerState) => StartupState {
                        position: past,
                        ledger_state: Some(state),
                        ..self
                    },
                    (StepOutcome::Launched(handle), Yield::Handle(subsystem)) => StartupState {
                        position: past,
                        handles: self.handles.insert(subsystem, handle),
                        ..self
                    },
                    _ => self.failed(StartupError::UnexpectedOutcome { step: self.position }),
                }
            },
        }
    }

    /// Whether the state is one that startup for `config` can be in: the plan
    /// is the startup plan of `config`, and what has been kept is exactly
    /// what the steps that have succeeded yield.
    pub open spec fn follows(self, config: &NodeConfig) -> bool {
        let performed = self.plan.take(self.position as int);
        &&& self.plan == spec_startup_plan(config)
        &&& self.position <= self.plan.len()
        &&& self.ledger_state is Some <==> yielded(performed, Yield::LedgerState)
        &&& forall|subsystem: Subsystem| #[trigger]
            self.handles.dom().contains(subsystem) <==> yielded(
                performed,
                Yield::Handle(subsystem),
            )
    }
}

/// What the first `n + 1` steps of a plan yield is what the first `n` yield,
/// and what the step at index `n` yields.
pub proof fn lemma_yielded_step(plan: Seq<StartupAction>, n: int, y: Yield)
    requires
        0 <= n < plan.len(),
    ensures
        yielded(plan.take(n + 1), y) <==> yielded(plan.take(n), y) || plan[n].spec_yields() == y,
{
    let last = seq![plan[n]];
    assert(plan.take(n + 1) =~= plan.take(n) + last);
    lemma_yielded_concat(plan.take(n), last, y);
    assert(last[0].spec_yields() == plan[n].spec_yields());
}

/// The state before the first step is one that startup can be in.
pub proof fn lemma_initial_follows<S, H, E>(config: &NodeConfig)
    ensures
        StartupState::<S, H, E>::initial(spec_startup_plan(config)).follows(config),
{
}

/// Every report leads from a state that startup can be in to another such
/// state, never moves backwards, and never clears a failure.
pub proof fn lemma_advance_follows<S, H, E>(
    state: StartupState<S, H, E>,
    config: &NodeConfig,
    outcome: StepOutcome<S, H, E>,
)
    requires
        state.follows(config),
    ensures
        state.advance(outcome).follows(config),
        state.advance(outcome).position >= state.position,
        state.failure is Some ==> state.advance(outcome) == state,
{
    let next = state.advance(outcome);
    if next.position != state.position {
        let n = state.position as int;
        assert forall|y: Yield|
            yielded(state.plan.take(n + 1), y) <==> yielded(state.plan.take(n), y)
                || state.plan[n].spec_yields() == y by {
            lemma_yielded_step(state.plan, n, y);
        }
        assert(next.position as int == n + 1);
        assert forall|subsystem: Subsystem| #[trigger]
            next.handles.dom().contains(subsystem) <==> yielded(
                next.plan.take(next.position as int),
                Yield::Handle(subsystem),
            ) by {
            assert(state.handles.dom().contains(subsystem) <==> yielded(
                state.plan.take(n),
                Yield::Handle(subsystem),
            ));
        }
    }
}

/// No report replaces what startup has kept: the ledger state, once built,
/// and the handle of every subsystem, once launched, stay what they are.
pub proof fn lemma_advance_keeps<S, H, E>(
    state: StartupState<S, H, E>,
    config: &NodeConfig,
    outcome: StepOutcome<S, H, E>,
)
    requires
        state.follows(config),
    ensures
        state.ledger_state is Some ==> state.advance(outcome).ledger_state == state.ledger_state,
        forall|subsystem: Subsystem| #[trigger]
            state.handles.dom().contains(subsystem) ==> state.advance(
                outcome,
            ).handles.dom().contains(subsystem) && state.advance(outcome).handles[subsystem]
                == state.handles[subsystem],
{
    let next = state.advance(outcome);
    let n = state.position as int;
    let performed = state.plan.take(n);
    if next.position != state.position {
        let y = state.plan[n].spec_yields();
        if y != Yield::Nothing && yielded(performed, y) {
            let i = choose|i: int|
                0 <= i < performed.len() && #[trigger] performed[i].spec_yields() == y;
            assert(performed[i] == state.plan[i]);
            lemma_yields_once(config, i, n);
        }
    }
}

/// When every step has succeeded, the ledger state is built and the handles
/// kept are those of exactly the subsystems that the node runs.
pub proof fn lemma_complete_composition<S, H, E>(
    state: StartupState<S, H, E>,
    config: &NodeConfig,
)
    requires
        state.follows(config),
        state.complete(),
    ensures
        state.ledger_state is Some,
        forall|subsystem: Subsystem| #[trigger]
            state.handles.dom().contains(subsystem) <==> spec_runs(config, subsystem),
{
    assert(state.plan.take(state.position as int) =~= state.plan);
    lemma_plan_yields(config, Yield::LedgerState);
    assert forall|subsystem: Subsystem| #[trigger]
        state.handles.dom().contains(subsystem) <==> spec_runs(config, subsystem) by {
        lemma_plan_yields(config, Yield::Handle(subsystem));
    }
}

} // verus!
