use agnetd::api_error::ApiError;
use agnetd::identity::{
    card_capabilities, check_cli_method, check_create_identity, default_method, onchain_settings,
    CreateIdentityRequest,
};
use agnetd::inference::{
    check_route, default_max_tokens, default_strategy, no_providers, price, PricingQuery, RouteQuery,
    RoutingStrategy,
};
use agnetd::mesh::{connect_response, disconnect_response, peers_response, stopped_status};
use agnetd::reputation::{attestation_claim, check_attest, AttestRequest};
use agnetd::system::{ack, audit_limit, health, next_audit_sequence, set_config_ack, AuditQuery, SetConfigRequest};
use agnetd::training::{
    check_start, coordinator_info, job_hash_input, job_id_from_digest, job_not_found, stop_response,
    train_db_key, worker_db_key, StartTrainRequest,
};

fn bad(e: ApiError) -> String {
    match e {
        ApiError::BadRequest(m) => m,
        _ => panic!("expected a bad request"),
    }
}

#[test]
fn identity_requests() {
    assert_eq!(default_method(), "key");
    let req = |n: &str, m: &str| CreateIdentityRequest { name: n.to_string(), method: m.to_string() };
    assert_eq!(bad(check_create_identity(&req("", "key")).unwrap_err()), "name cannot be empty");
    assert_eq!(
        bad(check_create_identity(&req("a", "web")).unwrap_err()),
        "unsupported DID method: 'web'. Use 'key' or 'neunode'."
    );
    assert!(check_create_identity(&req("a", "neunode")).is_ok());
    assert!(onchain_settings(&None, &Some("0x1".to_string())).is_err());
    assert_eq!(
        bad(onchain_settings(&Some("http://rpc".to_string()), &None).unwrap_err()),
        "on-chain registration not configured — set contracts.identity_contract_address"
    );
    assert_eq!(
        onchain_settings(&Some("u".to_string()), &Some("a".to_string())).ok().unwrap(),
        ("u".to_string(), "a".to_string())
    );
}

#[test]
fn attestation_checks() {
    let req = |to: &str, score: u8| AttestRequest { to: to.to_string(), score, comment: None };
    assert_eq!(bad(check_attest(&req("", 1)).unwrap_err()), "target DID cannot be empty");
    assert_eq!(bad(check_attest(&req("bob", 1)).unwrap_err()), "target must be a valid DID (did:...)");
    assert_eq!(bad(check_attest(&req("did:b", 101)).unwrap_err()), "invalid score: 101 (must be 0-100)");
    assert!(check_attest(&req("did:b", 100)).is_ok());
    assert_eq!(attestation_claim(&None), "general");
    assert_eq!(attestation_claim(&Some("code".to_string())), "code");
}

#[test]
fn audit_paging() {
    assert!(matches!(audit_limit(&AuditQuery { after: 0, limit: None }), Ok(100)));
    assert!(matches!(audit_limit(&AuditQuery { after: 0, limit: Some(1000) }), Ok(1000)));
    assert_eq!(bad(audit_limit(&AuditQuery { after: 0, limit: Some(0) }).unwrap_err()), "limit must be between 1 and 1000");
    assert!(audit_limit(&AuditQuery { after: 0, limit: Some(1001) }).is_err());
    assert_eq!(next_audit_sequence(Some(4)), Some(5));
    assert_eq!(next_audit_sequence(Some(u64::MAX)), None);
    assert_eq!(next_audit_sequence(None), None);
}

#[test]
fn config_and_health() {
    let ok = set_config_ack(&SetConfigRequest { key: "network".to_string(), value: "test".to_string() }).ok().unwrap();
    assert_eq!(ok.message, "Set network = test");
    assert!(set_config_ack(&SetConfigRequest { key: String::new(), value: "v".to_string() }).is_err());
    let h = health("0.1.0");
    assert_eq!(h.status, "ok");
    assert_eq!(h.version, "0.1.0");
    assert_eq!(ack("done").message, "done");
}

#[test]
fn mesh_answers() {
    let s = stopped_status();
    assert!(!s.running && s.local_peer_id.is_none());
    let p = peers_response(vec!["a".to_string(), "b".to_string()]);
    assert_eq!(p.count, 2);
    assert_eq!(connect_response("/ip4/1.2.3.4".to_string()).status, "dialing");
    assert_eq!(disconnect_response("Qm".to_string()).status, "disconnected");
}

#[test]
fn training_jobs() {
    assert_eq!(train_db_key("j1"), "job:j1");
    assert_eq!(worker_db_key("w1"), "worker:w1");
    let req = |m: &str, d: &str| StartTrainRequest { model: m.to_string(), dataset: d.to_string(), config: None };
    assert_eq!(bad(check_start(&req("", "d")).unwrap_err()), "model cannot be empty");
    assert_eq!(bad(check_start(&req("m", "")).unwrap_err()), "dataset cannot be empty");
    assert!(check_start(&req("m", "d")).is_ok());
    assert_eq!(job_hash_input("llama", "wiki", 17), "llamawiki17");
    assert_eq!(job_id_from_digest(&[0xde, 0xad, 0xbe, 0xef, 0, 1, 2, 3, 9, 9]), "train_deadbeef00010203");
    assert!(matches!(job_not_found("j9"), ApiError::NotFound(m) if m == "training job not found: j9"));
    assert_eq!(stop_response("j1").status, "stopped");
    let c = coordinator_info("queued", &vec!["available".to_string(), "busy".to_string(), "available".to_string()]);
    assert_eq!(c.active_workers, 2);
    assert_eq!(c.phase, "scheduling");
    assert_eq!(coordinator_info("odd", &vec![]).phase, "unknown");
}

#[test]
fn routing_strategies() {
    assert_eq!(default_strategy(), "cheapest");
    assert_eq!(default_max_tokens(), 256);
    let q = |m: &str, s: &str| RouteQuery { model: m.to_string(), strategy: s.to_string() };
    assert!(matches!(check_route(&q("m", "Highest_Reputation")), Ok(RoutingStrategy::HighestReputation)));
    assert!(matches!(check_route(&q("m", "ROUND_ROBIN")), Ok(RoutingStrategy::RoundRobin)));
    assert_eq!(bad(check_route(&q("", "cheapest")).unwrap_err()), "model cannot be empty");
    assert_eq!(
        bad(check_route(&q("m", "best")).unwrap_err()),
        "invalid strategy 'best'. Must be: cheapest, fastest, reputation, random, round_robin"
    );
    assert_eq!(no_providers(&q("m", "fastest")).status, "no_providers");
}

#[test]
fn pricing() {
    let q = |i: u32, o: u32| PricingQuery { model: "m".to_string(), input_tokens: i, output_tokens: o };
    let p = price(&q(1_000_000, 500_000), None).ok().unwrap();
    assert_eq!(p.input_cost, 100);
    assert_eq!(p.output_cost, 100);
    assert_eq!(p.total_cost, 200);
    assert_eq!(p.protocol_fee, 4);
    assert_eq!(p.net_payout, 196);
    let tiny = price(&q(10, 0), None).ok().unwrap();
    assert_eq!(tiny.total_cost, 1);
    assert_eq!(tiny.protocol_fee, 1);
    assert_eq!(tiny.net_payout, 0);
    let odd = price(&q(1_000_000, 0), Some((5100, 0))).ok().unwrap();
    assert_eq!(odd.total_cost, 5100);
    assert_eq!(odd.protocol_fee, 102);
    let r = price(&q(1_000_000, 0), Some((5101, 0))).ok().unwrap();
    assert_eq!(r.protocol_fee, 103);
    assert!(price(&q(0, 0), None).is_err());
}

#[test]
fn api_error_codes_and_messages() {
    let cases = [
        (ApiError::NotFound("x".to_string()), 404u16, "NOT_FOUND", "x"),
        (ApiError::BadRequest("y".to_string()), 400, "BAD_REQUEST", "y"),
        (ApiError::NoIdentity, 401, "NO_IDENTITY", "no active identity — run `agnetd identity create`"),
        (ApiError::MeshNotRunning, 503, "MESH_NOT_RUNNING", "mesh not running — run `agnetd mesh start` first"),
        (ApiError::Internal("z".to_string()), 500, "INTERNAL_ERROR", "z"),
    ];
    for (e, status, code, msg) in cases.iter() {
        assert_eq!(e.status_code(), *status);
        assert_eq!(e.error_code(), *code);
        assert_eq!(e.message(), *msg);
    }
    assert_eq!(agnetd::inference::default_input(), 0);
    assert_eq!(agnetd::inference::default_output(), 0);
}

#[test]
fn cli_identity_method_and_capabilities() {
    assert!(check_cli_method("key").is_ok());
    assert!(check_cli_method("neunode").is_ok());
    assert_eq!(
        check_cli_method("web").unwrap_err(),
        "unsupported DID method: web. Use 'key' or 'neunode'."
    );
    assert_eq!(card_capabilities("neunode"), vec!["inference", "training"]);
    assert!(card_capabilities("key").is_empty());
}
