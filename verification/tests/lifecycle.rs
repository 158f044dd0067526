use agnetd::api_error::ApiError;
use agnetd::lifecycle::{
    activate, error_message, execute, hibernate, list_agents, list_states, no_record_response, reactivate, reap,
    reap_record, reap_result, show_status, status_response, to_api_error, AgentState, LifecycleCommands,
    LifecycleError, LifecycleRecord, DEATH_THRESHOLD_SECS, IDLE_THRESHOLD_SECS, MAX_HIBERNATION_SECS,
    ZOMBIE_THRESHOLD_SECS,
};
use agnetd::output::Output;

fn record(did: &str, state: AgentState, last: u64) -> LifecycleRecord {
    LifecycleRecord {
        did: did.to_string(),
        state,
        last_activity: last,
        activated_at: Some(1),
        hibernated_at: None,
        tombstoned_at: None,
        derived_from: None,
    }
}

#[test]
fn first_activation_creates_an_active_record() {
    let r = activate("did:a", None, 100).ok().unwrap();
    assert_eq!(r.state, AgentState::Active);
    assert_eq!(r.did, "did:a");
    assert_eq!(r.activated_at, Some(100));
    assert_eq!(r.last_activity, 100);
}

#[test]
fn activation_refusals() {
    assert!(matches!(activate("d", Some(record("d", AgentState::Active, 0)), 5), Err(LifecycleError::AlreadyActive)));
    assert!(matches!(activate("d", Some(record("d", AgentState::Dead, 0)), 5), Err(LifecycleError::Dead)));
    let back = activate("d", Some(record("d", AgentState::Zombie, 0)), 5).ok().unwrap();
    assert_eq!(back.state, AgentState::Active);
    assert_eq!(back.activated_at, Some(1));
}

#[test]
fn hibernate_then_reactivate_restores_activity() {
    let h = hibernate(Some(record("d", AgentState::Active, 10)), 50).ok().unwrap();
    assert_eq!(h.state, AgentState::Hibernating);
    assert_eq!(h.hibernated_at, Some(50));
    let a = reactivate(Some(h), 70).ok().unwrap();
    assert_eq!(a.state, AgentState::Active);
    assert_eq!(a.hibernated_at, None);
    assert_eq!(a.last_activity, 70);
}

#[test]
fn transition_errors_and_messages() {
    assert!(matches!(hibernate(None, 0), Err(LifecycleError::NoRecord)));
    let e = hibernate(Some(record("d", AgentState::Idle, 0)), 0).err().unwrap();
    assert_eq!(error_message(e), "can only hibernate from ACTIVE state, current: IDLE");
    let e = reactivate(Some(record("d", AgentState::Active, 0)), 0).err().unwrap();
    assert_eq!(error_message(e), "can only reactivate from HIBERNATING, current: ACTIVE");
    assert!(matches!(to_api_error(LifecycleError::NoRecord), ApiError::NotFound(m) if m == "no lifecycle record -- POST /api/v1/lifecycle/activate first"));
    assert!(matches!(to_api_error(LifecycleError::Dead), ApiError::BadRequest(m) if m == "agent is DEAD (tombstoned, irreversible)"));
}

#[test]
fn reaper_thresholds() {
    let t0 = 1_000_000_000;
    assert_eq!(reap_record(record("d", AgentState::Active, t0), t0 + IDLE_THRESHOLD_SECS).state, AgentState::Idle);
    assert_eq!(reap_record(record("d", AgentState::Active, t0), t0 + IDLE_THRESHOLD_SECS - 1).state, AgentState::Active);
    assert_eq!(reap_record(record("d", AgentState::Idle, t0), t0 + ZOMBIE_THRESHOLD_SECS).state, AgentState::Zombie);
    let dead = reap_record(record("d", AgentState::Zombie, t0), t0 + DEATH_THRESHOLD_SECS);
    assert_eq!(dead.state, AgentState::Dead);
    assert_eq!(dead.tombstoned_at, Some(t0 + DEATH_THRESHOLD_SECS));
    let mut h = record("d", AgentState::Hibernating, t0);
    h.hibernated_at = Some(t0);
    assert_eq!(reap_record(h, t0 + MAX_HIBERNATION_SECS).state, AgentState::Dead);
    assert_eq!(reap_record(record("d", AgentState::Dead, 0), u64::MAX).state, AgentState::Dead);
}

#[test]
fn status_shows_zombie_warning() {
    let now = 3_000_000;
    let out = show_status("did:a", &Some(record("did:a", AgentState::Active, 0)), now);
    assert_eq!(out.len(), 6);
    assert!(matches!(&out[5], Output::Warning(w) if w == "Zombie warning: 0 days until zombification"));
    let quiet = show_status("did:a", &Some(record("did:a", AgentState::Active, now)), now);
    assert_eq!(quiet.len(), 5);
    let none = show_status("did:a", &None, now);
    assert!(matches!(&none[0], Output::Status(m) if m == "No lifecycle record. Run `agnetd lifecycle activate` to register."));
    let resp = status_response("did:a", &record("did:a", AgentState::Active, 10), 40);
    assert_eq!(resp.elapsed_secs, 30);
    assert_eq!(resp.state, "ACTIVE");
    assert_eq!(no_record_response().message, "No lifecycle record. POST /api/v1/lifecycle/activate to register.");
}

#[test]
fn listing_and_reaping() {
    let all = vec![record("did:neunode:0123456789abcdefghijklmnop", AgentState::Active, 0), record("did:b", AgentState::Dead, 0)];
    match &list_agents(&all)[0] {
        Output::Table { rows, .. } => {
            assert_eq!(rows[0][0], "did:neunode:0123456789ab...");
            assert_eq!(rows[1][1], "DEAD");
        }
        _ => panic!("expected a table"),
    }
    assert!(matches!(&list_agents(&vec![])[0], Output::Status(m) if m == "No agents registered"));
    let e = reap(&all, ZOMBIE_THRESHOLD_SECS);
    assert_eq!(e.writes.len(), 1);
    assert_eq!(e.writes[0].state, AgentState::Zombie);
    assert!(matches!(&e.outputs[1], Output::Status(m) if m == "Processed 1 state transitions"));
    let (writes, result) = reap_result(&all, ZOMBIE_THRESHOLD_SECS);
    assert_eq!(writes.len(), 1);
    assert_eq!(result.count, 1);
    assert_eq!(result.transitions[0].to, "ZOMBIE");
    assert_eq!(list_states(&all)[1].state, "DEAD");
    let calm = reap(&all, 5);
    assert!(matches!(&calm.outputs[0], Output::Status(m) if m == "No state transitions needed"));
}

#[test]
fn execute_runs_transitions() {
    let all = vec![];
    let e = execute(&LifecycleCommands::Activate, "did:a", None, &all, 9).ok().unwrap();
    assert_eq!(e.writes.len(), 1);
    assert_eq!(e.writes[0].state, AgentState::Active);
    assert!(execute(&LifecycleCommands::Hibernate, "did:a", None, &all, 9).is_err());
}

#[test]
fn reap_leaves_unchanged_records_uncut() {
    // 23 ASCII bytes then a 2-byte character: byte 24 is inside it.
    let odd = "did:neunode:0123456789a\u{e9}tail";
    let all = vec![
        record(odd, AgentState::Dead, 0),
        record("did:b", AgentState::Active, 0),
    ];
    let e = reap(&all, ZOMBIE_THRESHOLD_SECS);
    assert_eq!(e.writes.len(), 1);
    assert_eq!(e.writes[0].did, "did:b");
    let r = execute(&LifecycleCommands::Reap, "did:b", None, &all, ZOMBIE_THRESHOLD_SECS).ok().unwrap();
    assert_eq!(r.writes.len(), 1);
}
