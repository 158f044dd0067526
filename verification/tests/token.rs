use agnetd::api_error::ApiError;
use agnetd::bounty::TokenType;
use agnetd::token::{
    check_stake, check_transfer, check_unstake, claim_state, stake_shortfall, stake_summary,
    token_type_display, unstake_shortfall, TokenHolding, seed_holdings, seed_status, init_seed_status,
};

fn msg(r: Result<(), ApiError>) -> String {
    match r {
        Err(ApiError::BadRequest(m)) => m,
        _ => panic!("expected a bad request"),
    }
}

#[test]
fn transfer_checks() {
    assert_eq!(msg(check_transfer("", 1)), "recipient DID cannot be empty");
    assert_eq!(msg(check_transfer("alice", 1)), "recipient must be a valid DID (did:...)");
    assert_eq!(msg(check_transfer("did:alice", 0)), "amount must be greater than 0");
    assert!(check_transfer("did:alice", 1).is_ok());
}

#[test]
fn stake_checks() {
    assert_eq!(msg(check_stake(0, 100)), "amount must be greater than 0");
    assert_eq!(msg(check_stake(50, 100)), "amount 50 is below minimum stake of 100");
    assert!(check_stake(100, 100).is_ok());
    assert_eq!(msg(check_unstake(0)), "amount must be greater than 0");
    assert!(check_unstake(1).is_ok());
}

#[test]
fn shortfall_messages() {
    assert!(matches!(stake_shortfall(10, 3), ApiError::BadRequest(m) if m == "insufficient balance: have 3, need 10"));
    assert!(matches!(unstake_shortfall(5), ApiError::BadRequest(m) if m == "no staked tokens found with sufficient balance to unstake 5"));
    assert_eq!(claim_state(0), "NothingMatured");
    assert_eq!(claim_state(2), "Claimed");
}

#[test]
fn staking_summary() {
    let h = vec![
        TokenHolding { token: TokenType::Compute, balance: 5, staked: 10 },
        TokenHolding { token: TokenType::Train, balance: 7, staked: 0 },
        TokenHolding { token: TokenType::Storage, balance: 1, staked: 3 },
    ];
    let (total, entries) = stake_summary(&h);
    assert_eq!(total, 13);
    assert_eq!(entries.len(), 2);
    assert_eq!(entries[1].token, "nStorage");
    assert_eq!(entries[1].available, 1);
    assert_eq!(token_type_display(TokenType::Bandwidth), "nBandwidth");
}

fn fresh(token: TokenType, balance: u128, staked: u128) -> TokenHolding {
    TokenHolding { token, balance, staked }
}

#[test]
fn seeding_grants_only_empty_holdings() {
    let mut h = vec![
        fresh(TokenType::Compute, 0, 0),
        fresh(TokenType::Train, 5, 0),
        fresh(TokenType::Bandwidth, 0, 0),
        fresh(TokenType::Storage, 0, 7),
    ];
    let amounts = vec![500u128, 300, 0, 100];
    let (total, lines) = seed_holdings(&mut h, &amounts);
    assert_eq!(total, 500);
    assert_eq!(lines, vec!["nCompute: 500 (staked)"]);
    assert_eq!(h[0], fresh(TokenType::Compute, 0, 500));
    assert_eq!(h[1], fresh(TokenType::Train, 5, 0));
    assert_eq!(h[2], fresh(TokenType::Bandwidth, 0, 0));
    assert_eq!(h[3], fresh(TokenType::Storage, 0, 7));
    assert_eq!(seed_status("did:a", total, &lines), "Seeded 500 tokens to did:a (staked only, not spendable)");
    assert_eq!(init_seed_status(&lines), Some("Seed tokens granted: nCompute: 500 (staked)".to_string()));
}

#[test]
fn seeding_twice_grants_nothing() {
    let mut h = vec![fresh(TokenType::Compute, 0, 0), fresh(TokenType::Train, 0, 0)];
    let amounts = vec![10u128, 20];
    let (total, lines) = seed_holdings(&mut h, &amounts);
    assert_eq!(total, 30);
    assert_eq!(lines, vec!["nCompute: 10 (staked)", "nTrain: 20 (staked)"]);
    let before = h.clone();
    let (again, more) = seed_holdings(&mut h, &amounts);
    assert_eq!(again, 0);
    assert!(more.is_empty());
    assert_eq!(h, before);
    assert_eq!(seed_status("did:a", again, &more), "did:a already has tokens \u{2014} seed skipped");
    assert_eq!(init_seed_status(&more), None);
}
