use std::sync::Arc;

use sui_node::action::{StartupAction, Subsystem, Yield};
use sui_node::config::NodeConfig;
use sui_node::lifecycle::{join_policy, wait_result, JoinPolicy, WaitError};
use sui_node::node::{Startup, SuiNode};
use sui_node::plan::{runs, startup_plan};
use sui_node::startup::{StartupError, StepOutcome};

struct Ledger {
    name: &'static str,
}

type Machine = Startup<Ledger, String, String>;

const SUBSYSTEMS: [Subsystem; 6] = [
    Subsystem::PeerListener,
    Subsystem::QueryListener,
    Subsystem::SubscriptionListener,
    Subsystem::BatchService,
    Subsystem::PostProcessing,
    Subsystem::Replication,
];

fn node_config(consensus: bool, gossip: bool, events: bool, websocket: bool) -> NodeConfig {
    NodeConfig {
        network_address: "/ip4/0.0.0.0/tcp/8080/http".to_string(),
        metrics_address: "0.0.0.0:9184".to_string(),
        json_rpc_address: "0.0.0.0:9000".to_string(),
        websocket_address: if websocket { Some("0.0.0.0:9001".to_string()) } else { None },
        consensus_config: consensus,
        enable_gossip: gossip,
        enable_event_processing: events,
    }
}

fn every_config() -> Vec<NodeConfig> {
    let mut configs = Vec::new();
    for bits in 0..16 {
        configs.push(node_config(bits & 1 != 0, bits & 2 != 0, bits & 4 != 0, bits & 8 != 0));
    }
    configs
}

fn begin(config: &NodeConfig) -> Machine {
    SuiNode::<Ledger, String>::start::<String>(config)
}

fn handle_name(subsystem: Subsystem, step: usize) -> String {
    format!("{:?}#{}", subsystem, step)
}

fn succeed(
    action: &StartupAction,
    step: usize,
    ledger: &Arc<Ledger>,
) -> StepOutcome<Ledger, String, String> {
    match action.yields() {
        Yield::Nothing => StepOutcome::Done,
        Yield::LedgerState => StepOutcome::LedgerState(ledger.clone()),
        Yield::Handle(subsystem) => StepOutcome::Launched(handle_name(subsystem, step)),
    }
}

fn drive(mut machine: Machine, ledger: &Arc<Ledger>, steps: usize) -> Machine {
    for _ in 0..steps {
        let outcome = match machine.next_action() {
            Some(action) => succeed(action, machine.position(), ledger),
            None => break,
        };
        machine = machine.advance(outcome);
    }
    machine
}

fn launch_step(plan: &[StartupAction], subsystem: Subsystem) -> Option<usize> {
    plan.iter().position(|a| a.yields() == Yield::Handle(subsystem))
}

#[test]
fn startup_begins_before_the_first_step() {
    let config = node_config(true, false, false, false);
    let machine = begin(&config);
    assert_eq!(machine.position(), 0);
    assert!(!machine.is_complete());
    assert_eq!(*machine.plan(), startup_plan(&config));
    assert_eq!(
        machine.next_action(),
        Some(&StartupAction::StartMetricsServer { address: "0.0.0.0:9184".to_string() })
    );
}

#[test]
fn steps_are_offered_in_plan_order() {
    for config in every_config() {
        let ledger = Arc::new(Ledger { name: "ledger" });
        let plan = startup_plan(&config);
        let mut machine = begin(&config);
        for (step, expected) in plan.iter().enumerate() {
            assert_eq!(machine.position(), step);
            assert!(!machine.is_complete());
            assert_eq!(machine.next_action(), Some(expected));
            let outcome = succeed(expected, step, &ledger);
            machine = machine.advance(outcome);
        }
        assert_eq!(machine.position(), plan.len());
        assert!(machine.is_complete());
        assert_eq!(machine.next_action(), None);
    }
}

#[test]
fn completed_startup_composes_the_node() {
    for config in every_config() {
        let ledger = Arc::new(Ledger { name: "shared" });
        let plan = startup_plan(&config);
        let machine = drive(begin(&config), &ledger, plan.len());
        let node = match machine.finish() {
            Ok(node) => node,
            Err(error) => panic!("startup did not complete: {:?}", error),
        };
        assert!(Arc::ptr_eq(&node.state(), &ledger));
        for subsystem in SUBSYSTEMS {
            let expected = launch_step(&plan, subsystem).map(|step| handle_name(subsystem, step));
            assert_eq!(node.handle(subsystem), expected.as_ref());
            assert_eq!(node.handle(subsystem).is_some(), runs(&config, subsystem));
        }
    }
}

#[test]
fn validator_node_holds_no_gateway_handles() {
    let config = node_config(true, true, true, true);
    let ledger = Arc::new(Ledger { name: "validator" });
    let machine = drive(begin(&config), &ledger, usize::MAX);
    let node = machine.finish().ok().expect("startup completes");
    assert!(node.handle(Subsystem::PeerListener).is_some());
    assert!(node.handle(Subsystem::BatchService).is_some());
    assert!(node.handle(Subsystem::Replication).is_some());
    assert!(node.handle(Subsystem::PostProcessing).is_some());
    assert!(node.handle(Subsystem::QueryListener).is_none());
    assert!(node.handle(Subsystem::SubscriptionListener).is_none());
}

#[test]
fn validator_without_gossip_holds_no_replication_handle() {
    let config = node_config(true, false, false, false);
    let ledger = Arc::new(Ledger { name: "validator" });
    let machine = drive(begin(&config), &ledger, usize::MAX);
    let node = machine.finish().ok().expect("startup completes");
    assert!(node.handle(Subsystem::Replication).is_none());
    assert!(node.handle(Subsystem::PostProcessing).is_none());
    assert!(node.handle(Subsystem::PeerListener).is_some());
    assert!(node.handle(Subsystem::BatchService).is_some());
}

#[test]
fn failed_step_aborts_startup() {
    let config = node_config(false, false, true, true);
    let ledger = Arc::new(Ledger { name: "ledger" });
    let machine = drive(begin(&config), &ledger, 6);
    assert_eq!(
        machine.next_action(),
        Some(&StartupAction::OpenStore { store: sui_node::storage::StoreKind::Event })
    );
    let machine = machine.advance(StepOutcome::Failed("disk full".to_string()));
    assert_eq!(machine.position(), 6);
    assert!(!machine.is_complete());
    assert_eq!(machine.next_action(), None);
    let machine = machine.advance(StepOutcome::Done);
    assert_eq!(machine.position(), 6);
    assert_eq!(machine.next_action(), None);
    match machine.finish() {
        Ok(_) => panic!("a failed startup returned a node"),
        Err(error) => assert_eq!(
            error,
            StartupError::StepFailed { step: 6, cause: "disk full".to_string() }
        ),
    }
}

#[test]
fn first_failure_is_the_one_reported() {
    let config = node_config(true, false, false, false);
    let machine = begin(&config)
        .advance(StepOutcome::Failed("first".to_string()))
        .advance(StepOutcome::Failed("second".to_string()));
    match machine.finish() {
        Ok(_) => panic!("a failed startup returned a node"),
        Err(error) => assert_eq!(
            error,
            StartupError::StepFailed { step: 0, cause: "first".to_string() }
        ),
    }
}

#[test]
fn unexpected_outcome_aborts_startup() {
    let config = node_config(true, false, false, false);
    let ledger = Arc::new(Ledger { name: "ledger" });
    let machine = begin(&config).advance(StepOutcome::Launched("stray".to_string()));
    assert_eq!(machine.position(), 0);
    assert_eq!(machine.next_action(), None);
    match machine.finish() {
        Ok(_) => panic!("a failed startup returned a node"),
        Err(error) => assert_eq!(error, StartupError::UnexpectedOutcome { step: 0 }),
    }
    let plan = startup_plan(&config);
    let build = plan.iter().position(|a| a.yields() == Yield::LedgerState).unwrap();
    let machine = drive(begin(&config), &ledger, build).advance(StepOutcome::Done);
    match machine.finish() {
        Ok(_) => panic!("a failed startup returned a node"),
        Err(error) => assert_eq!(error, StartupError::UnexpectedOutcome { step: build }),
    }
    let batch = launch_step(&plan, Subsystem::BatchService).unwrap();
    let machine =
        drive(begin(&config), &ledger, batch).advance(StepOutcome::LedgerState(ledger.clone()));
    match machine.finish() {
        Ok(_) => panic!("a failed startup returned a node"),
        Err(error) => assert_eq!(error, StartupError::UnexpectedOutcome { step: batch }),
    }
}

#[test]
fn unfinished_startup_gives_no_node() {
    let config = node_config(false, false, false, false);
    let ledger = Arc::new(Ledger { name: "ledger" });
    match begin(&config).finish() {
        Ok(_) => panic!("an unfinished startup returned a node"),
        Err(error) => assert_eq!(error, StartupError::Incomplete { step: 0 }),
    }
    let last = startup_plan(&config).len() - 1;
    match drive(begin(&config), &ledger, last).finish() {
        Ok(_) => panic!("an unfinished startup returned a node"),
        Err(error) => assert_eq!(error, StartupError::Incomplete { step: last }),
    }
}

#[test]
fn reports_after_completion_change_nothing() {
    let config = node_config(false, true, false, false);
    let ledger = Arc::new(Ledger { name: "ledger" });
    let plan = startup_plan(&config);
    let machine = drive(begin(&config), &ledger, plan.len())
        .advance(StepOutcome::Failed("late".to_string()))
        .advance(StepOutcome::Launched("late".to_string()));
    assert!(machine.is_complete());
    assert_eq!(machine.position(), plan.len());
    let node = machine.finish().ok().expect("startup completed");
    let listener = launch_step(&plan, Subsystem::PeerListener).unwrap();
    assert_eq!(
        node.handle(Subsystem::PeerListener),
        Some(&handle_name(Subsystem::PeerListener, listener))
    );
}

#[test]
fn state_hands_out_a_new_shared_reference() {
    let config = node_config(false, false, false, false);
    let ledger = Arc::new(Ledger { name: "shared" });
    let node = drive(begin(&config), &ledger, usize::MAX).finish().ok().expect("completes");
    assert_eq!(Arc::strong_count(&ledger), 2);
    let first = node.state();
    assert_eq!(Arc::strong_count(&ledger), 3);
    let second = node.state();
    assert_eq!(Arc::strong_count(&ledger), 4);
    assert!(Arc::ptr_eq(&first, &ledger));
    assert!(Arc::ptr_eq(&second, &first));
    assert_eq!(first.name, "shared");
    drop(first);
    drop(second);
    assert_eq!(Arc::strong_count(&ledger), 2);
}

#[test]
fn wait_joins_only_the_peer_listener() {
    for config in every_config() {
        let ledger = Arc::new(Ledger { name: "shared" });
        let plan = startup_plan(&config);
        let node = drive(begin(&config), &ledger, plan.len()).finish().ok().expect("completes");
        let (joined, retained) = node.wait();
        let listener = launch_step(&plan, Subsystem::PeerListener).unwrap();
        assert_eq!(joined, handle_name(Subsystem::PeerListener, listener));
        assert!(retained.handle(Subsystem::PeerListener).is_none());
        assert!(Arc::ptr_eq(&retained.state(), &ledger));
        for subsystem in SUBSYSTEMS {
            if subsystem != Subsystem::PeerListener {
                let expected =
                    launch_step(&plan, subsystem).map(|step| handle_name(subsystem, step));
                assert_eq!(retained.handle(subsystem), expected.as_ref());
            }
        }
        assert_eq!(Arc::strong_count(&ledger), 2);
        drop(retained);
        assert_eq!(Arc::strong_count(&ledger), 1);
    }
}

#[test]
fn only_the_peer_listener_is_joined() {
    for subsystem in SUBSYSTEMS {
        let expected = if subsystem == Subsystem::PeerListener {
            JoinPolicy::Joined
        } else {
            JoinPolicy::Detached
        };
        assert_eq!(join_policy(subsystem), expected);
    }
}

#[test]
fn wait_result_propagates_listener_failures() {
    let clean: Result<Result<(), String>, u32> = Ok(Ok(()));
    assert_eq!(wait_result(clean), Ok(()));
    let failed: Result<Result<(), String>, u32> = Ok(Err("bind lost".to_string()));
    assert_eq!(wait_result(failed), Err(WaitError::Service("bind lost".to_string())));
    let panicked: Result<Result<(), String>, u32> = Err(7);
    assert_eq!(wait_result(panicked), Err(WaitError::Join(7)));
}
