//! The composed node and the machine that composes it: the shared ledger
//! state and the handles of the subsystems that run on it, kept as the steps
//! of startup leave them behind.

use std::sync::Arc;
use vstd::prelude::*;
use crate::action::StartupAction;
use crate::action::Subsystem;
use crate::action::Yield;
use crate::config::NodeConfig;
use crate::lifecycle::spec_join_policy;
use crate::lifecycle::JoinPolicy;
use crate::plan::spec_runs;
use crate::plan::spec_startup_plan;
use crate::plan::startup_plan;
use crate::startup::lemma_advance_follows;
use crate::startup::lemma_complete_composition;
use crate::startup::StartupError;
use crate::startup::StartupState;
use crate::startup::StepOutcome;

verus! {

/// The composition of a node: its ledger state, and the handle of each
/// subsystem it holds.
#[verifier::ext_equal]
pub struct NodeView<S, H> {
    /// The shared ledger state.
    pub state: Arc<S>,
    /// The handle of each subsystem held.
    pub handles: Map<Subsystem, H>,
}

/// A running node. It is the sole owner of the handles of its subsystems.
pub struct SuiNode<S, H> {
    peer_listener: H,
    query_listener: Option<H>,
    subscription_listener: Option<H>,
    batch_service: H,
    post_processing: Option<H>,
    replication: Option<H>,
    state: Arc<S>,
}

/// What is left of a node that is being waited on: the ledger state and the
/// handles that are never joined. Holding it keeps them alive.
pub struct Retained<S, H> {
    query_listener: Option<H>,
    subscription_listener: Option<H>,
    batch_service: H,
    post_processing: Option<H>,
    replication: Option<H>,
    state: Arc<S>,
}

/// Startup in progress: the machine that offers the steps of the startup
/// plan one at a time and keeps what they leave behind.
pub struct Startup<S, H, E> {
    config: Ghost<NodeConfig>,
    plan: Vec<StartupAction>,
    cursor: usize,
    failure: Option<StartupError<E>>,
    ledger_state: Option<Arc<S>>,
    peer_listener: Option<H>,
    query_listener: Option<H>,
    subscription_listener: Option<H>,
    batch_service: Option<H>,
    post_processing: Option<H>,
    replication: Option<H>,
}

/// The handles held in six slots, one for each subsystem.
spec fn handles_of<H>(slot: spec_fn(Subsystem) -> Option<H>) -> Map<Subsystem, H> {
    Map::new(
        |subsystem: Subsystem| slot(subsystem) is Some,
        |subsystem: Subsystem| slot(subsystem).unwrap(),
    )
}

/// `Arc::clone` of the standard library: another pointer to the same
/// allocation, so that the value behind the result is the value behind the
/// argument.
#[verifier::external_body]
fn share<S>(state: &Arc<S>) -> (shared: Arc<S>)
    ensures
        shared == *state,
{
    Arc::clone(state)
}

impl<S, H> View for SuiNode<S, H> {
    type V = NodeView<S, H>;

    closed spec fn view(&self) -> NodeView<S, H> {
        NodeView {
            state: self.state,
            handles: handles_of(|subsystem: Subsystem| self.slot(subsystem)),
        }
    }
}

impl<S, H> SuiNode<S, H> {
    /// The handle in the slot of a subsystem.
    spec fn slot(&self, subsystem: Subsystem) -> Option<H> {
        match subsystem {
            Subsystem::PeerListener => Some(self.peer_listener),
            Subsystem::QueryListener => self.query_listener,
            Subsystem::SubscriptionListener => self.subscription_listener,
            Subsystem::BatchService => Some(self.batch_service),
            Subsystem::PostProcessing => self.post_processing,
            Subsystem::Replication => self.replication,
        }
    }

    /// Begins startup for `config`: the machine stands before the first step
    /// of the startup plan, with nothing kept.
    pub fn start<E>(config: &NodeConfig) -> (startup: Startup<S, H, E>)
        ensures
            startup.config() == *config,
            startup@ == StartupState::<S, H, E>::initial(spec_startup_plan(config)),
            startup@.follows(config),
    {
        let startup = Startup {
            config: Ghost(*config),
            plan: startup_plan(config),
            cursor: 0,
            failure: None,
            ledger_state: None,
            peer_listener: None,
            query_listener: None,
            subscription_listener: None,
            batch_service: None,
            post_processing: None,
            replication: None,
        };
        assert(startup@.handles =~= Map::empty());
        startup
    }

    /// A new shared reference to the ledger state.
    pub fn state(&self) -> (state: Arc<S>)
        ensures
            state == self@.state,
    {
        share(&self.state)
    }

    /// The handle of a subsystem, where the node holds one.
    pub fn handle(&self, subsystem: Subsystem) -> (handle: Option<&H>)
        ensures
            match handle {
                Some(h) => self@.handles.dom().contains(subsystem) && *h
                    == self@.handles[subsystem],
                None => !self@.handles.dom().contains(subsystem),
            },
    {
        match subsystem {
            Subsystem::PeerListener => Some(&self.peer_listener),
            Subsystem::QueryListener => self.query_listener.as_ref(),
            Subsystem::SubscriptionListener => self.subscription_listener.as_ref(),
            Subsystem::BatchService => Some(&self.batch_service),
            Subsystem::PostProcessing => self.post_processing.as_ref(),
            Subsystem::Replication => self.replication.as_ref(),
        }
    }

    /// Consumes the node to wait on it: hands out the handle of the
    /// peer-facing listener, the only one that is joined, and retains
    /// everything else unchanged.
    pub fn wait(self) -> (parts: (H, Retained<S, H>))
        ensures
            self@.handles.dom().contains(Subsystem::PeerListener),
            parts.0 == self@.handles[Subsystem::PeerListener],
            parts.1@.state == self@.state,
            parts.1@.handles == self@.handles.remove(Subsystem::PeerListener),
            forall|subsystem: Subsystem| #[trigger]
                parts.1@.handles.dom().contains(subsystem) <==> self@.handles.dom().contains(
                    subsystem,
                ) && spec_join_policy(subsystem) == JoinPolicy::Detached,
    {
        let retained = Retained {
            query_listener: self.query_listener,
            subscription_listener: self.subscription_listener,
            batch_service: self.batch_service,
            post_processing: self.post_processing,
            replication: self.replication,
            state: self.state,
        };
        assert(retained@.handles =~= self@.handles.remove(Subsystem::PeerListener));
        (self.peer_listener, retained)
    }
}

impl<S, H> View for Retained<S, H> {
    type V = NodeView<S, H>;

    closed spec fn view(&self) -> NodeView<S, H> {
        NodeView {
            state: self.state,
            handles: handles_of(|subsystem: Subsystem| self.slot(subsystem)),
        }
    }
}

impl<S, H> Retained<S, H> {
    /// The handle in the slot of a subsystem.
    spec fn slot(&self, subsystem: Subsystem) -> Option<H> {
        match subsystem {
            Subsystem::PeerListener => None,
            Subsystem::QueryListener => self.query_listener,
            Subsystem::SubscriptionListener => self.subscription_listener,
            Subsystem::BatchService => Some(self.batch_service),
            Subsystem::PostProcessing => self.post_processing,
            Subsystem::Replication => self.replication,
        }
    }

    /// A new shared reference to the ledger state.
    pub fn state(&self) -> (state: Arc<S>)
        ensures
            state == self@.state,
    {
        share(&self.state)
    }

    /// The handle of a subsystem, where it is retained.
    pub fn handle(&self, subsystem: Subsystem) -> (handle: Option<&H>)
        ensures
            match handle {
                Some(h) => self@.handles.dom().contains(subsystem) && *h
                    == self@.handles[subsystem],
                None => !self@.handles.dom().contains(subsystem),
            },
    {
        match subsystem {
            Subsystem::PeerListener => None,
            Subsystem::QueryListener => self.query_listener.as_ref(),
            Subsystem::SubscriptionListener => self.subscription_listener.as_ref(),
            Subsystem::BatchService => Some(&self.batch_service),
            Subsystem::PostProcessing => self.post_processing.as_ref(),
            Subsystem::Replication => self.replication.as_ref(),
        }
    }
}

impl<S, H, E> View for Startup<S, H, E> {
    type V = StartupState<S, H, E>;

    closed spec fn view(&self) -> StartupState<S, H, E> {
        StartupState {
            plan: self.plan@,
            position: self.cursor,
            failure: self.failure,
            ledger_state: self.ledger_state,
            handles: handles_of(|subsystem: Subsystem| self.slot(subsystem)),
        }
    }
}

impl<S, H, E> Startup<S, H, E> {
    /// The handle in the slot of a subsystem.
    spec fn slot(&self, subsystem: Subsystem) -> Option<H> {
        match subsystem {
            Subsystem::PeerListener => self.peer_listener,
            Subsystem::QueryListener => self.query_listener,
            Subsystem::SubscriptionListener => self.subscription_listener,
            Subsystem::BatchService => self.batch_service,
            Subsystem::PostProcessing => self.post_processing,
            Subsystem::Replication => self.replication,
        }
    }

    /// The configuration that startup was begun for.
    pub closed spec fn config(&self) -> NodeConfig {
        self.config@
    }

    #[verifier::type_invariant]
    spec fn consistent(self) -> bool {
        self@.follows(&self.config@)
    }

    /// The steps of startup, in order.
    pub fn plan(&self) -> (plan: &Vec<StartupAction>)
        ensures
            plan@ == self@.plan,
            self@.follows(&self.config()),
    {
        proof {
            use_type_invariant(self);
        }
        &self.plan
    }

    /// Number of steps that have succeeded.
    pub fn position(&self) -> (position: usize)
        ensures
            position == self@.position,
    {
        self.cursor
    }

    /// Whether every step has succeeded.
    pub fn is_complete(&self) -> (complete: bool)
        ensures
            complete == self@.complete(),
    {
        self.failure.is_none() && self.cursor >= self.plan.len()
    }

    /// The step to perform next, if there is one.
    pub fn next_action(&self) -> (action: Option<&StartupAction>)
        ensures
            match action {
                Some(a) => self@.next_action() == Some(*a),
                None => self@.next_action() is None,
            },
    {
        if self.failure.is_none() && self.cursor < self.plan.len() {
            Some(&self.plan[self.cursor])
        } else {
            None
        }
    }

    /// Takes the report that the step offered ended with `outcome`.
    pub fn advance(self, outcome: StepOutcome<S, H, E>) -> (next: Self)
        ensures
            next.config() == self.config(),
            next@ == self@.advance(outcome),
            next@.follows(&next.config()),
    {
        let ghost expected = self@.advance(outcome);
        proof {
            use_type_invariant(&self);
            lemma_advance_follows(self@, &self.config@, outcome);
        }
        if self.failure.is_some() || self.cursor >= self.plan.len() {
            return self;
        }
        let step = self.cursor;
        let past = step + 1;
        let yields = self.plan[step].yields();
        match (outcome, yields) {
            (StepOutcome::Failed(cause), _) => {
                let failure = Some(StartupError::StepFailed { step, cause });
                assert((Startup { failure, ..self })@ =~= expected);
                Startup { failure, ..self }
            },
            (StepOutcome::Done, Yield::Nothing) => {
                assert((Startup { cursor: past, ..self })@ =~= expected);
                Startup { cursor: past, ..self }
            },
            (StepOutcome::LedgerState(state), Yield::LedgerState) => {
                let ledger_state = Some(state);
                assert((Startup { cursor: past, ledger_state, ..self })@ =~= expected);
                Startup { cursor: past, ledger_state, ..self }
            },
            (StepOutcome::Launched(handle), Yield::Handle(subsystem)) => {
                let kept = Some(handle);
                match subsystem {
                    Subsystem::PeerListener => {
                        assert((Startup { cursor: past, peer_listener: kept, ..self })@
                            =~= expected);
                        Startup { cursor: past, peer_listener: kept, ..self }
                    },
                    Subsystem::QueryListener => {
                        assert((Startup { cursor: past, query_listener: kept, ..self })@
                            =~= expected);
                        Startup { cursor: past, query_listener: kept, ..self }
                    },
                    Subsystem::SubscriptionListener => {
                        assert((Startup { cursor: past, subscription_listener: kept, ..self })@
                            =~= expected);
                        Startup { cursor: past, subscription_listener: kept, ..self }
                    },
                    Subsystem::BatchService => {
                        assert((Startup { cursor: past, batch_service: kept, ..self })@
                            =~= expected);
                        Startup { cursor: past, batch_service: kept, ..self }
                    },
                    Subsystem::PostProcessing => {
                        assert((Startup { cursor: past, post_processing: kept, ..self })@
                            =~= expected);
                        Startup { cursor: past, post_processing: kept, ..self }
                    },
                    Subsystem::Replication => {
                        assert((Startup { cursor: past, replication: kept, ..self })@
                            =~= expected);
                        Startup { cursor: past, replication: kept, ..self }
                    },
                }
            },
            _ => {
                let failure = Some(StartupError::UnexpectedOutcome { step });
                assert((Startup { failure, ..self })@ =~= expected);
                Startup { failure, ..self }
            },
        }
    }

    /// Ends startup. Gives the composed node when every step has succeeded,
    /// the recorded failure when startup has failed, and otherwise the index
    /// of the step that is still to be performed.
    pub fn finish(self) -> (result: Result<SuiNode<S, H>, StartupError<E>>)
        ensures
            match result {
                Ok(node) => {
                    &&& self@.complete()
                    &&& Some(node@.state) == self@.ledger_state
                    &&& node@.handles == self@.handles
                    &&& forall|subsystem: Subsystem| #[trigger]
                        node@.handles.dom().contains(subsystem) <==> spec_runs(
                            &self.config(),
                            subsystem,
                        )
                },
                Err(failure) => {
                    &&& !self@.complete()
                    &&& match self@.failure {
                        Some(recorded) => failure == recorded,
                        None => failure == (StartupError::<E>::Incomplete {
                            step: self@.position,
                        }),
                    }
                },
            },
    {
        proof {
            use_type_invariant(&self);
        }
        match self.failure {
            Some(failure) => Err(failure),
            None => {
                if self.cursor < self.plan.len() {
                    Err(StartupError::Incomplete { step: self.cursor })
                } else {
                    proof {
                        lemma_complete_composition(self@, &self.config@);
                        assert(self@.handles.dom().contains(Subsystem::PeerListener));
                        assert(self@.handles.dom().contains(Subsystem::BatchService));
                    }
                    let node = SuiNode {
                        peer_listener: self.peer_listener.unwrap(),
                        query_listener: self.query_listener,
                        subscription_listener: self.subscription_listener,
                        batch_service: self.batch_service.unwrap(),
                        post_processing: self.post_processing,
                        replication: self.replication,
                        state: self.ledger_state.unwrap(),
                    };
                    assert(node@.handles =~= self@.handles);
                    Ok(node)
                }
            },
        }
    }
}

} // verus!
