use telemetry_node::connectivity::ConnStage;
use telemetry_node::connectivity::ConnectivityManager;
use telemetry_node::connectivity::stage_sequence;

#[test]
fn full_handshake_in_order_reaches_connected() {
    let mut mgr = ConnectivityManager::new();
    assert!(mgr.needs_attempt());
    assert!(!mgr.is_connected());
    mgr.begin_attempt();
    for stage in stage_sequence() {
        assert_eq!(mgr.pending_stage(), Some(stage));
        let r = mgr.record_stage_outcome(stage, true);
        assert!(r.is_ok());
    }
    assert!(mgr.is_connected());
    assert!(!mgr.needs_attempt());
    assert_eq!(mgr.pending_stage(), None);
    mgr.set_address(0xC0A8010C);
    assert_eq!(mgr.address(), Some(0xC0A8010C));
}

#[test]
fn partial_handshake_does_not_reach_connected() {
    // Resolving only the first three stages must leave the link down:
    // the design treats the link as up only after address assignment.
    let mut mgr = ConnectivityManager::new();
    mgr.begin_attempt();
    assert!(mgr.record_stage_outcome(ConnStage::Configure, true).is_ok());
    assert!(mgr.record_stage_outcome(ConnStage::Start, true).is_ok());
    assert!(mgr.record_stage_outcome(ConnStage::Associate, true).is_ok());
    assert!(!mgr.is_connected());
    assert_eq!(mgr.pending_stage(), Some(ConnStage::AddressAssignment));
    assert_eq!(mgr.address(), None);
}

#[test]
fn stage_failure_abandons_attempt_with_its_stage() {
    let mut mgr = ConnectivityManager::new();
    mgr.begin_attempt();
    assert!(mgr.record_stage_outcome(ConnStage::Configure, true).is_ok());
    let err = mgr
        .record_stage_outcome(ConnStage::Start, false)
        .unwrap_err();
    assert_eq!(err.stage, ConnStage::Start);
    assert!(!mgr.is_connected());
    assert!(mgr.needs_attempt());
    assert_eq!(mgr.pending_stage(), None);
}

#[test]
fn failure_at_address_assignment_is_fatal_too() {
    let mut mgr = ConnectivityManager::new();
    mgr.begin_attempt();
    assert!(mgr.record_stage_outcome(ConnStage::Configure, true).is_ok());
    assert!(mgr.record_stage_outcome(ConnStage::Start, true).is_ok());
    assert!(mgr.record_stage_outcome(ConnStage::Associate, true).is_ok());
    let err = mgr
        .record_stage_outcome(ConnStage::AddressAssignment, false)
        .unwrap_err();
    assert_eq!(err.stage, ConnStage::AddressAssignment);
    assert!(!mgr.is_connected());
}

#[test]
fn stage_order_is_fixed() {
    let stages = stage_sequence();
    assert_eq!(
        stages,
        vec![
            ConnStage::Configure,
            ConnStage::Start,
            ConnStage::Associate,
            ConnStage::AddressAssignment,
        ]
    );
}
