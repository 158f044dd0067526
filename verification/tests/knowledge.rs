use agnetd::knowledge::{
    check_join_job, check_register_agent, check_register_bounty, check_register_model, default_limit,
    is_unbounded, parse_capabilities, pattern_from_hashes, pattern_terms, HashPattern, KnowledgeQuery,
};

#[test]
fn parse_capabilities_comma_separated() {
    let caps = parse_capabilities("NLP,Vision,RL");
    assert_eq!(caps, vec!["NLP", "Vision", "RL"]);
}

#[test]
fn parse_capabilities_trims_whitespace() {
    let caps = parse_capabilities(" NLP , Vision , RL ");
    assert_eq!(caps, vec!["NLP", "Vision", "RL"]);
}

#[test]
fn parse_capabilities_empty_string() {
    let caps = parse_capabilities("");
    assert!(caps.is_empty());
}

#[test]
fn parse_capabilities_single() {
    let caps = parse_capabilities("Training");
    assert_eq!(caps, vec!["Training"]);
}

#[test]
fn parse_capabilities_filters_empty_parts() {
    let caps = parse_capabilities("NLP,,Vision,");
    assert_eq!(caps, vec!["NLP", "Vision"]);
}

#[test]
fn registration_checks() {
    assert_eq!(check_register_agent("").unwrap_err(), "agent DID cannot be empty");
    assert!(check_register_agent("did:x").is_ok());
    assert_eq!(check_register_model("", "c").unwrap_err(), "owner DID cannot be empty");
    assert_eq!(check_register_model("d", "").unwrap_err(), "model CID cannot be empty");
    assert_eq!(check_register_bounty("").unwrap_err(), "bounty ID cannot be empty");
    assert_eq!(check_join_job("d", "").unwrap_err(), "job ID cannot be empty");
    assert!(check_join_job("d", "j").is_ok());
}

#[test]
fn query_without_pattern_is_unbounded() {
    let mut q = KnowledgeQuery { subject: None, predicate: None, object: None, graph: None, limit: default_limit() };
    assert_eq!(q.limit, 20);
    assert!(is_unbounded(&q));
    q.graph = Some("g".to_string());
    assert!(!is_unbounded(&q));
}

#[test]
fn pattern_terms_keep_pattern_order() {
    let q = KnowledgeQuery {
        subject: Some("s".to_string()),
        predicate: None,
        object: Some("o".to_string()),
        graph: Some("g".to_string()),
        limit: 5,
    };
    assert_eq!(pattern_terms(&q), vec!["s", "o", "g"]);
    let hashes = vec![11u64, 22, 33];
    let pat = pattern_from_hashes(&q, &hashes);
    assert_eq!(
        pat,
        HashPattern { subject: Some(11), predicate: None, object: Some(22), graph: Some(33) }
    );
}

#[test]
fn pattern_with_predicate_only() {
    let q = KnowledgeQuery {
        subject: None,
        predicate: Some("p".to_string()),
        object: None,
        graph: None,
        limit: 5,
    };
    assert_eq!(pattern_terms(&q), vec!["p"]);
    let pat = pattern_from_hashes(&q, &vec![7u64]);
    assert_eq!(pat, HashPattern { subject: None, predicate: Some(7), object: None, graph: None });
}
