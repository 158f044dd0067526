use agnetd::bounty::bounty_id_text;
use agnetd::api_error::ApiError;
use agnetd::bounty::{
    bounty_data_to_response, cancel_payouts, check_claim, check_review, check_submit, default_claim,
    default_limit, default_token, default_work, escrow_did, list_bounties, list_items, load_bounty,
    new_bounty_record, parse_bounty_state, parse_token_type, require_claimant, require_creator,
    review_verdict, service_error, settle_payment, show_bounty, storage_amount, token_type_from_code,
    BountyData, BountyListQuery, BountyServiceError, BountyState, CreateBountyRequest, ReviewVerdict,
    StorageFailure, TokenType,
};
use agnetd::output::Output;

fn bounty(id: &str, state: &str, creator: &str) -> BountyData {
    BountyData {
        id: id.to_string(),
        state: state.to_string(),
        requester_did: creator.to_string(),
        provider_did: None,
        reward_amount: 1000,
        reward_token_type: 0x01,
        deadline: 999,
        created_at: 100,
        escrow_deposited: 1000,
        title: "Test".to_string(),
        description: "Desc".to_string(),
        claim_deadline: 200,
        work_deadline: 300,
        review_deadline: 400,
        artifact_hash: None,
        bond: None,
    }
}

fn invalid_text(e: BountyServiceError) -> String {
    match e {
        BountyServiceError::Invalid(m) => m,
        _ => panic!("expected an invalid-request error"),
    }
}

#[test]
fn list_bounties_empty() {
    let out = list_bounties(None, None, 10, &Vec::new());
    assert_eq!(out.len(), 1);
    assert!(matches!(&out[0], Output::Status(m) if m == "No bounties found"));
}

#[test]
fn show_bounty_not_found() {
    assert!(show_bounty("nonexistent", None).is_err());
}

#[test]
fn show_bounty_empty_id_fails() {
    assert!(show_bounty("", None).is_err());
}

#[test]
fn show_bounty_messages_and_fields() {
    assert_eq!(show_bounty("", None).unwrap_err(), "bounty id cannot be empty");
    assert_eq!(show_bounty("b1", None).unwrap_err(), "bounty 'b1' not found");
    let out = show_bounty("b1", Some(bounty("b1", "Open", "did:neunode:abc"))).unwrap();
    match &out[0] {
        Output::Pairs(p) => {
            assert_eq!(p.len(), 12);
            assert_eq!(p[5], ("Claimant".to_string(), "none".to_string()));
            assert_eq!(p[6], ("Reward".to_string(), "1000 (type 1)".to_string()));
            assert_eq!(p[11], ("Review Deadline".to_string(), "400".to_string()));
        }
        _ => panic!("expected pairs"),
    }
}

#[test]
fn list_bounties_filters_and_limits() {
    let all = vec![
        bounty("a", "Open", "did:neunode:alice"),
        bounty("b", "Claimed", "did:neunode:bob"),
        bounty("c", "Open", "did:neunode:bob"),
        bounty("d", "Open", "did:neunode:carol"),
    ];
    match &list_bounties(Some("OPEN"), None, 2, &all)[0] {
        Output::Table { headers, rows } => {
            assert_eq!(headers.len(), 5);
            assert_eq!(rows.len(), 2);
            assert_eq!(rows[0][0], "a");
            assert_eq!(rows[1][0], "c");
            assert_eq!(rows[0][2], "1000 (type 1)");
        }
        _ => panic!("expected a table"),
    }
    match &list_bounties(None, Some("bob"), 10, &all)[0] {
        Output::Table { rows, .. } => assert_eq!(rows.len(), 2),
        _ => panic!("expected a table"),
    }
    assert!(matches!(&list_bounties(Some("paid"), None, 10, &all)[0], Output::Status(_)));
}

#[test]
fn api_listing_compares_lower_case() {
    let all = vec![bounty("a", "Open", "did:x"), bounty("b", "Claimed", "did:y")];
    let q = BountyListQuery { state: Some("open".to_string()), creator: None, limit: default_limit() };
    let items = list_items(&all, &q);
    assert_eq!(items.len(), 1);
    assert_eq!(items[0].id, "a");
    let q2 = BountyListQuery { state: None, creator: Some("did:".to_string()), limit: 1 };
    assert_eq!(list_items(&all, &q2).len(), 1);
}

#[test]
fn parse_token_type_all_variants() {
    assert!(matches!(parse_token_type("compute"), Ok(TokenType::Compute)));
    assert!(matches!(parse_token_type("train"), Ok(TokenType::Train)));
    assert!(matches!(parse_token_type("bandwidth"), Ok(TokenType::Bandwidth)));
    assert!(matches!(parse_token_type("storage"), Ok(TokenType::Storage)));
    assert!(parse_token_type("invalid").is_err());
}

#[test]
fn parse_token_type_prefix_and_case() {
    assert!(matches!(parse_token_type("NCompute"), Ok(TokenType::Compute)));
    match parse_token_type("gold") {
        Err(ApiError::BadRequest(m)) => assert_eq!(
            m,
            "invalid token type 'gold'. Must be one of: compute, train, bandwidth, storage"
        ),
        _ => panic!("expected a bad request"),
    }
}

#[test]
fn token_codes_round_trip() {
    for t in [TokenType::Compute, TokenType::Train, TokenType::Bandwidth, TokenType::Storage] {
        assert_eq!(token_type_from_code(t.code()), Some(t));
    }
    assert_eq!(token_type_from_code(0), None);
    assert_eq!(TokenType::Storage.code(), 4);
}

#[test]
fn bounty_states_parse_in_any_case() {
    assert_eq!(parse_bounty_state("UnderReview"), Some(BountyState::UnderReview));
    assert_eq!(parse_bounty_state("CANCELLED"), Some(BountyState::Cancelled));
    assert_eq!(parse_bounty_state("done"), None);
    assert_eq!(BountyState::UnderReview.stored_name(), "UnderReview");
}

#[test]
fn bounty_data_to_response_maps_fields() {
    let data = bounty("bnty_001", "Open", "did:neunode:abc");
    let resp = bounty_data_to_response(&data);
    assert_eq!(resp.id, "bnty_001");
    assert_eq!(resp.state, "Open");
    assert_eq!(resp.reward, 1000);
    assert!(resp.claimant.is_none());
}

#[test]
fn request_defaults() {
    assert_eq!(default_token(), "compute");
    assert_eq!(default_claim(), 72);
    assert_eq!(default_work(), 168);
    assert_eq!(default_limit(), 50);
}

#[test]
fn service_checks_in_order() {
    assert_eq!(invalid_text(check_claim("", 0).unwrap_err()), "bounty id cannot be empty");
    assert_eq!(invalid_text(check_claim("b", 0).unwrap_err()), "stake must be greater than 0");
    assert!(check_claim("b", 1).is_ok());
    assert_eq!(invalid_text(check_submit("b", "").unwrap_err()), "artifact CID cannot be empty");
    assert_eq!(invalid_text(check_review("b", 101).unwrap_err()), "invalid score: 101 (must be 0-100)");
    assert!(check_review("b", 100).is_ok());
    assert!(matches!(load_bounty("zz", None), Err(BountyServiceError::NotFound(id)) if id == "zz"));
}

#[test]
fn only_creator_and_claimant_may_act() {
    let mut b = bounty("b", "Claimed", "did:c");
    b.provider_did = Some("did:p".to_string());
    assert!(require_creator(&b, "did:c").is_ok());
    assert_eq!(invalid_text(require_creator(&b, "did:p").unwrap_err()), "only the bounty creator may perform this action");
    assert!(require_claimant(&b, "did:p").is_ok());
    assert_eq!(invalid_text(require_claimant(&b, "did:c").unwrap_err()), "only the bounty claimant may submit work");
}

#[test]
fn review_scores_route() {
    assert_eq!(review_verdict(60), ReviewVerdict::Accept);
    assert_eq!(review_verdict(59), ReviewVerdict::Undecided);
    assert_eq!(review_verdict(40), ReviewVerdict::Undecided);
    assert_eq!(review_verdict(39), ReviewVerdict::Reject);
}

#[test]
fn escrow_account_name() {
    assert_eq!(escrow_did("bnty_1"), "escrow:bnty_1");
}

#[test]
fn cancel_and_pay_release_reward_and_bond() {
    let mut b = bounty("b", "Claimed", "did:c");
    b.provider_did = Some("did:p".to_string());
    b.bond = Some(200);
    let payouts = cancel_payouts(&b).ok().unwrap();
    assert_eq!(payouts, vec![("did:c".to_string(), 1000u128), ("did:p".to_string(), 200u128)]);
    let (pay, out) = settle_payment(&b).ok().unwrap();
    assert_eq!(out, ("did:p".to_string(), 1200u128));
    assert_eq!(pay.reward_paid, 1000);
    assert_eq!(pay.bond_returned, 200);
    let open = bounty("o", "Open", "did:c");
    assert_eq!(cancel_payouts(&open).ok().unwrap(), vec![("did:c".to_string(), 1000u128)]);
    assert_eq!(invalid_text(settle_payment(&open).err().unwrap()), "bounty has no claimant");
    let mut broken = bounty("x", "Claimed", "did:c");
    broken.bond = Some(5);
    assert_eq!(invalid_text(cancel_payouts(&broken).err().unwrap()), "claimed bounty has no provider");
}

#[test]
fn service_errors_map_to_api_errors() {
    assert!(matches!(service_error(BountyServiceError::NotFound("b".to_string())), ApiError::NotFound(m) if m == "bounty 'b' not found"));
    let e = service_error(BountyServiceError::Storage(StorageFailure::InsufficientBalance { required: 5, available: 2 }));
    assert!(matches!(e, ApiError::BadRequest(m) if m == "insufficient balance: required 5, available 2"));
    assert!(matches!(service_error(BountyServiceError::Storage(StorageFailure::Other("disk".to_string()))), ApiError::Internal(m) if m == "disk"));
}

#[test]
fn amounts_beyond_u64_are_refused() {
    assert!(matches!(storage_amount(5, true), Ok(5)));
    assert_eq!(invalid_text(storage_amount(u64::MAX as u128 + 1, true).unwrap_err()), "reward exceeds storage range");
    assert_eq!(invalid_text(storage_amount(u64::MAX as u128 + 1, false).unwrap_err()), "bond exceeds storage range");
}

fn request(title: &str, reward: u64, token: &str) -> CreateBountyRequest {
    CreateBountyRequest {
        title: title.to_string(),
        description: "D".to_string(),
        reward,
        token: token.to_string(),
        claim_deadline: default_claim(),
        work_deadline: default_work(),
    }
}

#[test]
fn new_bounty_is_open_with_escrowed_reward() {
    let d = new_bounty_record(&request("T", 100, "train"), "bnty_1", "did:c", 1000).ok().unwrap();
    assert_eq!(d.state, "Open");
    assert_eq!(d.escrow_deposited, 100);
    assert_eq!(d.reward_token_type, 2);
    assert_eq!(d.claim_deadline, 1000 + 72 * 3600);
    assert_eq!(d.work_deadline, 1000 + 168 * 3600);
    assert_eq!(d.review_deadline, 1000 + 168 * 3600 + 3 * 86400);
    let near_end = new_bounty_record(&request("T", 100, "train"), "b", "c", u64::MAX - 10).ok().unwrap();
    assert_eq!(near_end.claim_deadline, u64::MAX);
}

#[test]
fn new_bounty_refusals() {
    assert!(matches!(new_bounty_record(&request("", 100, "compute"), "b", "c", 0), Err(ApiError::BadRequest(m)) if m == "title cannot be empty"));
    assert!(matches!(new_bounty_record(&request("T", 0, "compute"), "b", "c", 0), Err(ApiError::BadRequest(m)) if m == "reward must be greater than 0"));
    assert!(new_bounty_record(&request("T", 1, "gold"), "b", "c", 0).is_err());
}

use agnetd::bounty::{check_bounty_id, review_starts_from, stored_state, stored_token_type};

#[test]
fn stored_records_read_back() {
    assert!(matches!(stored_state("UNDERREVIEW"), Ok(BountyState::UnderReview)));
    assert_eq!(invalid_text(stored_state("Done").err().unwrap()), "invalid bounty state in storage: 'Done'");
    assert!(matches!(stored_token_type(3), Ok(TokenType::Bandwidth)));
    assert_eq!(invalid_text(stored_token_type(9).err().unwrap()), "invalid token type code: 9");
    assert_eq!(invalid_text(check_bounty_id("").unwrap_err()), "bounty id cannot be empty");
    assert!(review_starts_from(BountyState::Submitted));
    assert!(!review_starts_from(BountyState::UnderReview));
}

use agnetd::bounty::{review_event_plan, ReviewEvent};

#[test]
fn review_event_sequences() {
    assert_eq!(
        review_event_plan(BountyState::Submitted, 85),
        vec![ReviewEvent::StartReview, ReviewEvent::SubmitReview(85), ReviewEvent::Accept]
    );
    assert_eq!(review_event_plan(BountyState::UnderReview, 50), vec![ReviewEvent::SubmitReview(50)]);
    assert_eq!(review_event_plan(BountyState::UnderReview, 10), vec![ReviewEvent::SubmitReview(10), ReviewEvent::Reject]);
}

#[test]
fn bounty_ids_are_padded_hex() {
    assert_eq!(bounty_id_text(255, 65537), "bnty_0000000000ff0001");
    assert_eq!(bounty_id_text(0x18a2b3c4d5e6f7a8, 5), "bnty_18a2b3c4d5e6f7a80005");
    assert_eq!(
        bounty_id_text(0x18a2b3c4d5e6f7a8, 5),
        format!("bnty_{:012x}{:04x}", 0x18a2b3c4d5e6f7a8u64, 5u64 & 0xFFFF)
    );
}
