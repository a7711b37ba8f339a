use evm_rpc_dashboard::dashboard::{
    contact_info_lines, dashboard_status_line, get_contact_info, header_lines, health_text,
    push_uptime, status_line, uptime_fits, MAX_DELTA_NANOS, MAX_DELTA_SECS, ContactInfo, Dashboard, HealthProbe, ValidatorStats,
};

fn stats(health: &str, max: u64, balance: u64) -> ValidatorStats {
    ValidatorStats {
        max_retransmit_slot: max,
        processed_slot: 10,
        confirmed_slot: 9,
        finalized_slot: 8,
        transaction_count: 100,
        identity_balance: balance,
        health: health.to_string(),
    }
}

fn node(pubkey: &str, version: Option<&str>) -> ContactInfo {
    ContactInfo {
        pubkey: pubkey.to_string(),
        gossip: None,
        tpu: None,
        rpc: None,
        version: version.map(|v| v.to_string()),
        shred_version: None,
    }
}

fn pairs(lines: &[evm_rpc_dashboard::dashboard::NameValue]) -> Vec<(String, String)> {
    lines.iter().map(|l| (l.name.clone(), l.value.clone())).collect()
}

#[test]
fn health_texts() {
    assert_eq!(health_text(HealthProbe::Healthy), "ok");
    assert_eq!(health_text(HealthProbe::SlotsBehind(5)), "5 slots behind");
    assert_eq!(health_text(HealthProbe::SlotsBehind(0)), "0 slots behind");
    assert_eq!(health_text(HealthProbe::Unknown), "health unknown");
}

#[test]
fn uptime_texts() {
    let mut s = String::new();
    push_uptime(&mut s, 3725, 0);
    assert_eq!(s, "01:02:05 ");
    let mut s = String::new();
    push_uptime(&mut s, 360000, 999_999_999);
    assert_eq!(s, "100:00:00 ");
    let mut s = String::new();
    push_uptime(&mut s, 0, 0);
    assert_eq!(s, "00:00:00 ");
}

#[test]
fn status_line_of_healthy_validator() {
    let line = status_line(&stats("ok", 0, 1_500_000_000), None, 3725, 0, "ignored");
    assert_eq!(
        line,
        "01:02:05 | Processed Slot: 10 | Confirmed Slot: 9 | Finalized Slot: 8 | Snapshot Slot: - | Transactions: 100 | ◎1.500000000"
    );
}

#[test]
fn status_line_of_lagging_validator() {
    let line = status_line(&stats("3 slots behind", 12, 7), Some(4), 59, 0, "<3 slots behind>");
    assert_eq!(
        line,
        "00:00:59 | <3 slots behind> | Max Slot: 12 | Processed Slot: 10 | Confirmed Slot: 9 | Finalized Slot: 8 | Snapshot Slot: 4 | Transactions: 100 | ◎0.000000007"
    );
}

#[test]
fn status_line_emphasizes_health() {
    let line = dashboard_status_line(&stats("health unknown", 0, 0), Some(1), 0, 0);
    let plain = "00:00:00 | health unknown | Processed Slot: 10 | Confirmed Slot: 9 | Finalized Slot: 8 | Snapshot Slot: 1 | Transactions: 100 | ◎0.000000000";
    let colored = "00:00:00 | \x1b[31m\x1b[1mhealth unknown\x1b[0m | Processed Slot: 10 | Confirmed Slot: 9 | Finalized Slot: 8 | Snapshot Slot: 1 | Transactions: 100 | ◎0.000000000";
    assert!(line == plain || line == colored, "{:?}", line);
}

#[test]
fn contact_lookup_takes_first_match() {
    let nodes = vec![node("A", Some("1")), node("B", Some("2")), node("B", Some("3"))];
    let found = get_contact_info(nodes, "B").unwrap();
    assert_eq!(found.version.as_deref(), Some("2"));
    assert!(get_contact_info(vec![node("A", None)], "Z").is_none());
    assert!(get_contact_info(vec![], "A").is_none());
}

#[test]
fn contact_lines() {
    let bare = contact_info_lines(node("A", None));
    assert_eq!(pairs(&bare), vec![("Version:".to_string(), "?".to_string())]);
    let full = ContactInfo {
        pubkey: "A".to_string(),
        gossip: Some("10.0.0.1:8001".to_string()),
        tpu: Some("10.0.0.1:8003".to_string()),
        rpc: Some("10.0.0.1:8899".to_string()),
        version: Some("1.5.0".to_string()),
        shred_version: Some(4711),
    };
    assert_eq!(
        pairs(&contact_info_lines(full)),
        vec![
            ("Version:".to_string(), "1.5.0".to_string()),
            ("Shred Version:".to_string(), "4711".to_string()),
            ("Gossip Address:".to_string(), "10.0.0.1:8001".to_string()),
            ("TPU Address:".to_string(), "10.0.0.1:8003".to_string()),
            ("JSON RPC URL:".to_string(), "http://10.0.0.1:8899".to_string()),
        ]
    );
}

#[test]
fn header() {
    assert_eq!(
        pairs(&header_lines("/ledger", None)),
        vec![("Ledger location:".to_string(), "/ledger".to_string())]
    );
    assert_eq!(
        pairs(&header_lines("/ledger", Some("/log"))),
        vec![
            ("Ledger location:".to_string(), "/ledger".to_string()),
            ("Log:".to_string(), "/log".to_string()),
        ]
    );
    assert_eq!(Dashboard::new("/ledger").ledger_path, "/ledger");
}

#[test]
fn uptime_clock_range() {
    assert!(uptime_fits(0, 0));
    assert!(uptime_fits(MAX_DELTA_SECS, MAX_DELTA_NANOS));
    assert!(!uptime_fits(MAX_DELTA_SECS, MAX_DELTA_NANOS + 1));
    assert!(!uptime_fits(MAX_DELTA_SECS + 1, 0));
    assert_eq!(MAX_DELTA_SECS, (i64::MAX / 1000) as u64);
}
