use bluescale::body::Person;
use bluescale::discovery::handle_event;
use bluescale::discovery::DiscoveryAction;
use bluescale::discovery::DiscoveryEvent;
use bluescale::probe::evaluate_payload;
use bluescale::probe::initial_probe_state;
use bluescale::probe::probe_step;
use bluescale::probe::ProbeAction;
use bluescale::probe::ProbeEvent;
use bluescale::probe::ProbeOutcome;
use bluescale::probe::ProbeState;
use bluescale::probe::QueryFailure;
use bluescale::probe::MAX_ATTEMPTS;
use bluescale::probe::QUIET_PERIOD_SECS;
use bluescale::probe::RETRY_DELAY_MS;

fn male() -> Person {
    Person { sex: 1, age: 30_000_000_000, height: 175_000_000_000 }
}

/// Stabilized, impedance-present payload claiming 2023-09-18 21:41:12,
/// impedance 500, weight 70.00 kg.
fn good_payload() -> Vec<u8> {
    vec![0x00, 0x22, 231, 7, 9, 18, 21, 41, 12, 244, 1, 176, 54]
}

const NOW: i64 = 1_695_073_272;

#[test]
fn orchestrator_constants() {
    assert_eq!(MAX_ATTEMPTS, 10);
    assert_eq!(RETRY_DELAY_MS, 1500);
    assert_eq!(QUIET_PERIOD_SECS, 10);
}

#[test]
fn evaluate_good_payload() {
    let p = male();
    let m = evaluate_payload(&p, &good_payload(), NOW).ok().unwrap();
    assert_eq!(m.date_time, NOW);
    assert_eq!(m.weight, 70_000_000_000);
    assert_eq!(m.bf, p.get_body_fat(70_000_000_000, 500_000_000_000));
}

#[test]
fn evaluate_not_stabilized() {
    let p = male();
    let mut d = good_payload();
    d[1] = 0x02; // impedance present, not stabilized
    let r = evaluate_payload(&p, &d, NOW);
    assert!(matches!(r, Err(QueryFailure::InvalidScaleData)));
}

#[test]
fn evaluate_date_invalid_flag() {
    let p = male();
    let mut d = good_payload();
    d[1] = 0x62; // stabilized but date-invalid
    let r = evaluate_payload(&p, &d, NOW);
    assert!(matches!(r, Err(QueryFailure::InvalidScaleData)));
}

#[test]
fn evaluate_truncated_is_invalid_scale_data() {
    let p = male();
    let r = evaluate_payload(&p, &vec![0u8; 5], NOW);
    assert!(matches!(r, Err(QueryFailure::InvalidScaleData)));
}

#[test]
fn evaluate_implausible_timestamp() {
    let p = male();
    // the claimed timestamp is 11 minutes older than now
    let r = evaluate_payload(&p, &good_payload(), NOW + 660);
    assert!(matches!(r, Err(QueryFailure::ImplausibleTimestamp)));
    // inclusive boundary: ten minutes of skew still passes
    assert!(evaluate_payload(&p, &good_payload(), NOW + 600).is_ok());
    assert!(evaluate_payload(&p, &good_payload(), NOW - 600).is_ok());
}

#[test]
fn evaluate_no_impedance() {
    let p = male();
    let mut d = good_payload();
    d[1] = 0x20; // stabilized, impedance flag cleared
    let r = evaluate_payload(&p, &d, NOW);
    assert!(matches!(r, Err(QueryFailure::NoImpedance)));
    // impedance flag set but a zero raw value is equally unusable
    let mut d2 = good_payload();
    d2[9] = 0;
    d2[10] = 0;
    assert!(matches!(evaluate_payload(&p, &d2, NOW), Err(QueryFailure::NoImpedance)));
}

#[test]
fn evaluate_zero_weight_rejected() {
    let p = male();
    let mut d = good_payload();
    d[11] = 0;
    d[12] = 0;
    let r = evaluate_payload(&p, &d, NOW);
    assert!(matches!(r, Err(QueryFailure::InvalidScaleData)));
}

#[test]
fn retry_bound_exhausts_after_ten_attempts() {
    let p = male();
    let mut state = initial_probe_state();
    let mut queries: u32 = 0;
    let mut persists: u32 = 0;
    let mut delays: u32 = 0;
    loop {
        match state {
            ProbeState::Querying { .. } => {
                queries += 1;
                let (next, action) =
                    probe_step(&p, NOW, state, ProbeEvent::QueryResult { payload: None });
                match action {
                    ProbeAction::RetryAfterDelay => delays += 1,
                    ProbeAction::Persist { .. } => persists += 1,
                    _ => {}
                }
                state = next;
            }
            _ => break,
        }
    }
    assert_eq!(queries, 10);
    assert_eq!(delays, 9);
    assert_eq!(persists, 0);
    assert!(matches!(state, ProbeState::Done { outcome: ProbeOutcome::Exhausted }));
}

#[test]
fn success_on_third_attempt() {
    let p = male();
    let mut state = initial_probe_state();
    // two failed queries
    for _ in 0..2 {
        let (next, action) = probe_step(&p, NOW, state, ProbeEvent::QueryResult { payload: None });
        assert!(matches!(action, ProbeAction::RetryAfterDelay));
        state = next;
    }
    assert!(matches!(state, ProbeState::Querying { attempt: 3 }));
    // the third query returns a valid payload
    let (next, action) =
        probe_step(&p, NOW, state, ProbeEvent::QueryResult { payload: Some(good_payload()) });
    let m = match action {
        ProbeAction::Persist { m } => m,
        _ => panic!("expected a persistence dispatch"),
    };
    assert_eq!(m.weight, 70_000_000_000);
    assert!(matches!(next, ProbeState::AwaitingPersist { attempt: 3 }));
    // persistence succeeds: exactly one dispatch, then success
    let (done, action) = probe_step(&p, NOW, next, ProbeEvent::PersistResult { ok: true });
    assert!(matches!(action, ProbeAction::NotifySuccess));
    assert!(matches!(done, ProbeState::Done { outcome: ProbeOutcome::Success }));
}

#[test]
fn persistence_failure_is_terminal() {
    let p = male();
    let state = initial_probe_state();
    let (next, action) =
        probe_step(&p, NOW, state, ProbeEvent::QueryResult { payload: Some(good_payload()) });
    assert!(matches!(action, ProbeAction::Persist { .. }));
    let (done, action) = probe_step(&p, NOW, next, ProbeEvent::PersistResult { ok: false });
    // a persistence failure is not retried
    assert!(matches!(action, ProbeAction::Halt));
    assert!(matches!(done, ProbeState::Done { outcome: ProbeOutcome::PersistenceFailure }));
}

#[test]
fn allow_list_blocks_unknown_addresses() {
    let filter: Vec<u64> = vec![0x0000_1122_3344_5566, 0x0000_aabb_ccdd_eeff];
    let added = DiscoveryEvent::Added { addr: 0x0000_0102_0304_0506 };
    assert!(matches!(handle_event(&filter, &added), DiscoveryAction::Ignored));
    let removed = DiscoveryEvent::Removed { addr: 0x0000_0102_0304_0506 };
    assert!(matches!(handle_event(&filter, &removed), DiscoveryAction::Ignored));
}

#[test]
fn allow_list_passes_known_and_empty() {
    let filter: Vec<u64> = vec![0x0000_1122_3344_5566];
    let added = DiscoveryEvent::Added { addr: 0x0000_1122_3344_5566 };
    assert!(matches!(
        handle_event(&filter, &added),
        DiscoveryAction::Probe { addr: 0x0000_1122_3344_5566 }
    ));
    let empty: Vec<u64> = vec![];
    let any = DiscoveryEvent::Added { addr: 7 };
    assert!(matches!(handle_event(&empty, &any), DiscoveryAction::Probe { addr: 7 }));
    let removed = DiscoveryEvent::Removed { addr: 0x0000_1122_3344_5566 };
    assert!(matches!(
        handle_event(&filter, &removed),
        DiscoveryAction::NoteRemoval { addr: 0x0000_1122_3344_5566 }
    ));
}
