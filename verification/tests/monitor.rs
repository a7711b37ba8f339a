use evm_rpc_dashboard::dashboard::{ContactInfo, ValidatorStats};
use evm_rpc_dashboard::monitor::{Command, DashboardMachine, Event, Phase, StartProgress, StatsReport};

fn step(m: &mut DashboardMachine, e: Event) -> Command {
    assert!(m.accepts(&e));
    m.step(e)
}

fn report() -> StatsReport {
    StatsReport {
        stats: ValidatorStats {
            max_retransmit_slot: 0,
            processed_slot: 3,
            confirmed_slot: 2,
            finalized_slot: 1,
            transaction_count: 5,
            identity_balance: 1_000_000_000,
            health: "ok".to_string(),
        },
        uptime_secs: 61,
        uptime_nanos: 0,
    }
}

fn message(c: Command) -> String {
    match c {
        Command::SetMessage(t) => t,
        other => panic!("expected a message, got {:?}", other),
    }
}

#[test]
fn exit_before_connecting_stops() {
    let (mut m, c) = DashboardMachine::new();
    assert!(matches!(c, Command::CheckExit));
    assert!(matches!(step(&mut m, Event::ExitFlag(true)), Command::Stop));
    assert_eq!(m.phase, Phase::Finished);
    assert!(matches!(step(&mut m, Event::Done), Command::Stop));
}

#[test]
fn startup_until_running() {
    let (mut m, _) = DashboardMachine::new();
    assert!(matches!(step(&mut m, Event::ExitFlag(false)), Command::NewSpinner(Some(t)) if t == "Connecting..."));
    assert!(matches!(step(&mut m, Event::Done), Command::CheckExit));
    assert!(matches!(step(&mut m, Event::ExitFlag(false)), Command::Connect));
    let c = step(&mut m, Event::Connected(Err("refused".to_string())));
    assert_eq!(message(c), "Unable to connect to validator: refused");
    assert!(matches!(step(&mut m, Event::Done), Command::Sleep));
    assert!(matches!(step(&mut m, Event::Done), Command::CheckExit));
    assert!(matches!(step(&mut m, Event::ExitFlag(false)), Command::Connect));
    assert!(matches!(step(&mut m, Event::Connected(Ok(()))), Command::QueryProgress));
    assert!(m.has_client);
    let p = StartProgress { running: false, description: "LoadingLedger".to_string() };
    assert_eq!(message(step(&mut m, Event::Progress(Ok(p)))), "Validator startup: LoadingLedger...");
    assert!(matches!(step(&mut m, Event::Done), Command::Sleep));
    assert!(matches!(step(&mut m, Event::Done), Command::CheckExit));
    // still connected: asks again without reconnecting
    assert!(matches!(step(&mut m, Event::ExitFlag(false)), Command::QueryProgress));
    let c = step(&mut m, Event::Progress(Err("timeout".to_string())));
    assert_eq!(message(c), "Failed to get validator start progress: timeout");
    assert!(!m.has_client);
    assert!(matches!(step(&mut m, Event::Done), Command::Sleep));
    assert!(matches!(step(&mut m, Event::Done), Command::CheckExit));
    // the failed query dropped the connection: connects anew
    assert!(matches!(step(&mut m, Event::ExitFlag(false)), Command::Connect));
    assert!(matches!(step(&mut m, Event::Connected(Ok(()))), Command::QueryProgress));
    let p = StartProgress { running: true, description: "Running".to_string() };
    assert!(matches!(step(&mut m, Event::Progress(Ok(p))), Command::QueryInfo));
    assert!(!m.has_client);
    assert_eq!(message(step(&mut m, Event::Info(Ok(false)))), "RPC service not available");
    assert!(matches!(step(&mut m, Event::Done), Command::Sleep));
    assert!(matches!(step(&mut m, Event::Done), Command::CheckExit));
    assert!(matches!(step(&mut m, Event::ExitFlag(false)), Command::Connect));
    assert!(matches!(step(&mut m, Event::Connected(Ok(()))), Command::QueryProgress));
    let p = StartProgress { running: true, description: "Running".to_string() };
    assert!(matches!(step(&mut m, Event::Progress(Ok(p))), Command::QueryInfo));
    assert_eq!(message(step(&mut m, Event::Info(Err("gone".to_string())))), "Failed to get validator info: gone");
    assert!(matches!(step(&mut m, Event::Done), Command::Sleep));
    assert!(matches!(step(&mut m, Event::Done), Command::CheckExit));
    assert!(matches!(step(&mut m, Event::ExitFlag(false)), Command::Connect));
    assert!(matches!(step(&mut m, Event::Connected(Ok(()))), Command::QueryProgress));
    let p = StartProgress { running: true, description: "Running".to_string() };
    assert!(matches!(step(&mut m, Event::Progress(Ok(p))), Command::QueryInfo));
    assert!(matches!(step(&mut m, Event::Info(Ok(true))), Command::FetchIdentity));
}

fn connected_machine() -> DashboardMachine {
    let (mut m, _) = DashboardMachine::new();
    step(&mut m, Event::ExitFlag(false));
    step(&mut m, Event::Done);
    step(&mut m, Event::ExitFlag(false));
    step(&mut m, Event::Connected(Ok(())));
    step(&mut m, Event::Progress(Ok(StartProgress { running: true, description: String::new() })));
    step(&mut m, Event::Info(Ok(true)));
    assert_eq!(m.phase, Phase::FetchingIdentity);
    m
}

#[test]
fn identity_failure_starts_over() {
    let mut m = connected_machine();
    match step(&mut m, Event::Identity(Err("no rpc".to_string()))) {
        Command::PrintLine(t) => assert_eq!(t, "Failed to get validator identity over RPC: no rpc"),
        other => panic!("{:?}", other),
    }
    assert!(matches!(step(&mut m, Event::Done), Command::CheckExit));
    assert_eq!(m.phase, Phase::CheckRunning);
    assert!(matches!(step(&mut m, Event::ExitFlag(true)), Command::Stop));
}

#[test]
fn monitoring_rounds() {
    let mut m = connected_machine();
    match step(&mut m, Event::Identity(Ok("Ident1".to_string()))) {
        Command::PrintLines(l) => {
            assert_eq!(l.len(), 1);
            assert_eq!((l[0].name.as_str(), l[0].value.as_str()), ("Identity:", "Ident1"));
        },
        other => panic!("{:?}", other),
    }
    assert!(matches!(step(&mut m, Event::Done), Command::FetchGenesis));
    match step(&mut m, Event::Genesis(Some("GenHash".to_string()))) {
        Command::PrintLines(l) => assert_eq!((l[0].name.as_str(), l[0].value.as_str()), ("Genesis Hash:", "GenHash")),
        other => panic!("{:?}", other),
    }
    assert!(matches!(step(&mut m, Event::Done), Command::FetchClusterNodes));
    let nodes = vec![ContactInfo {
        pubkey: "Ident1".to_string(),
        gossip: None,
        tpu: None,
        rpc: Some("1.2.3.4:8899".to_string()),
        version: None,
        shred_version: None,
    }];
    match step(&mut m, Event::ClusterNodes(nodes)) {
        Command::PrintLines(l) => {
            assert_eq!(l.len(), 2);
            assert_eq!(l[1].value, "http://1.2.3.4:8899");
        },
        other => panic!("{:?}", other),
    }
    assert!(matches!(step(&mut m, Event::Done), Command::NewSpinner(None)));
    assert!(matches!(step(&mut m, Event::Done), Command::CheckExit));
    let mut fetched = vec![];
    for round in 0..21 {
        match step(&mut m, Event::ExitFlag(false)) {
            Command::FetchSnapshotSlot => {
                fetched.push(round);
                assert!(matches!(step(&mut m, Event::SnapshotSlot(Some(round))), Command::FetchStats));
            },
            Command::FetchStats => {},
            other => panic!("{:?}", other),
        }
        let line = message(step(&mut m, Event::Stats(Ok(report()))));
        assert!(line.starts_with("00:01:01 | Processed Slot: 3"), "{}", line);
        assert!(line.ends_with(" | Transactions: 5 | ◎1.000000000"), "{}", line);
        assert!(matches!(step(&mut m, Event::Done), Command::Sleep));
        assert!(matches!(step(&mut m, Event::Done), Command::CheckExit));
    }
    assert_eq!(fetched, vec![0, 10, 20]);
    assert_eq!(m.snapshot_slot, Some(20));
    assert!(matches!(step(&mut m, Event::ExitFlag(false)), Command::FetchStats));
    match step(&mut m, Event::Stats(Err("broken pipe".to_string()))) {
        Command::Abandon(t) => assert_eq!(t, "RPC connection failure: broken pipe"),
        other => panic!("{:?}", other),
    }
    assert!(matches!(step(&mut m, Event::Done), Command::CheckExit));
    assert!(matches!(step(&mut m, Event::ExitFlag(false)), Command::NewSpinner(Some(_))));
}

#[test]
fn exit_during_monitoring_returns_to_outer_check() {
    let mut m = connected_machine();
    step(&mut m, Event::Identity(Ok("X".to_string())));
    step(&mut m, Event::Done);
    assert!(matches!(step(&mut m, Event::Genesis(None)), Command::FetchClusterNodes));
    assert!(matches!(step(&mut m, Event::ClusterNodes(vec![])), Command::NewSpinner(None)));
    step(&mut m, Event::Done);
    assert!(matches!(step(&mut m, Event::ExitFlag(true)), Command::CheckExit));
    assert_eq!(m.phase, Phase::CheckRunning);
    assert!(matches!(step(&mut m, Event::ExitFlag(true)), Command::Stop));
}

#[test]
fn machine_refuses_answers_out_of_turn() {
    let (mut m, _) = DashboardMachine::new();
    assert!(!m.accepts(&Event::Done));
    assert!(m.accepts(&Event::ExitFlag(false)));
    assert!(matches!(m.step(Event::Done), Command::Stop));
    assert_eq!(m.phase, Phase::Finished);
}

#[test]
fn exit_reaches_finished_from_startup_query() {
    let (mut m, _) = DashboardMachine::new();
    step(&mut m, Event::ExitFlag(false));
    step(&mut m, Event::Done);
    step(&mut m, Event::ExitFlag(false));
    assert_eq!(m.phase, Phase::Connecting);
    // the flag is set from here on: every exit check finds it set
    assert!(matches!(step(&mut m, Event::Connected(Err("down".to_string()))), Command::SetMessage(_)));
    assert!(matches!(step(&mut m, Event::Done), Command::Sleep));
    assert!(matches!(step(&mut m, Event::Done), Command::CheckExit));
    assert!(matches!(step(&mut m, Event::ExitFlag(true)), Command::CheckExit));
    assert_eq!(m.phase, Phase::CheckRunning);
    assert!(matches!(step(&mut m, Event::ExitFlag(true)), Command::Stop));
    assert_eq!(m.phase, Phase::Finished);
}

#[test]
fn exit_reaches_finished_from_stats_query() {
    let mut m = connected_machine();
    step(&mut m, Event::Identity(Ok("X".to_string())));
    step(&mut m, Event::Done);
    step(&mut m, Event::Genesis(None));
    step(&mut m, Event::ClusterNodes(vec![]));
    step(&mut m, Event::Done);
    step(&mut m, Event::ExitFlag(false));
    step(&mut m, Event::SnapshotSlot(None));
    assert_eq!(m.phase, Phase::FetchingStats);
    assert!(matches!(step(&mut m, Event::Stats(Ok(report()))), Command::SetMessage(_)));
    assert!(matches!(step(&mut m, Event::Done), Command::Sleep));
    assert!(matches!(step(&mut m, Event::Done), Command::CheckExit));
    assert!(matches!(step(&mut m, Event::ExitFlag(true)), Command::CheckExit));
    assert!(matches!(step(&mut m, Event::ExitFlag(true)), Command::Stop));
    assert_eq!(m.phase, Phase::Finished);
}

#[test]
fn startup_wait_ends_on_exit_without_address() {
    let (mut m, _) = DashboardMachine::new();
    step(&mut m, Event::ExitFlag(false));
    step(&mut m, Event::Done);
    assert_eq!(m.phase, Phase::StartupCheckExit);
    assert!(matches!(step(&mut m, Event::ExitFlag(true)), Command::CheckExit));
    assert_eq!(m.phase, Phase::CheckRunning);
    assert_eq!(m.identity, "");
}
