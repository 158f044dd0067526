//! Token commands: the checks a transfer, a stake or an unstake must pass
//! before the ledger is touched, and the staking summary.
use vstd::prelude::*;
use crate::api_error::{ApiError, ApiErrorView};
use crate::bounty::TokenType;
use crate::text::{concat, decimal, decimal_string, has_prefix, join, join_strings, push_all, str_starts_with, views};

verus! {

broadcast use vstd::string::group_string_axioms;

/// The name a token kind is shown under.
pub open spec fn token_name(t: TokenType) -> Seq<char> {
    match t {
        TokenType::Compute => "nCompute"@,
        TokenType::Train => "nTrain"@,
        TokenType::Bandwidth => "nBandwidth"@,
        TokenType::Storage => "nStorage"@,
    }
}

/// The name a token kind is shown under.
pub fn token_type_display(t: TokenType) -> (s: &'static str)
    ensures
        s@ == token_name(t),
{
    match t {
        TokenType::Compute => "nCompute",
        TokenType::Train => "nTrain",
        TokenType::Bandwidth => "nBandwidth",
        TokenType::Storage => "nStorage",
    }
}

/// The body of a transfer.
pub struct TransferRequest {
    pub to: String,
    pub amount: u64,
    pub token: String,
}

/// The body of a stake.
pub struct StakeRequest {
    pub amount: u64,
    pub token: String,
}

/// The body of an unstake.
pub struct UnstakeRequest {
    pub amount: u64,
}

/// The token a balance query asks about, or all of them.
pub struct BalanceQuery {
    pub token: Option<String>,
}

pub struct BalanceResponse {
    pub token: String,
    pub balance: u128,
    pub staked: u128,
}

pub struct AllBalancesResponse {
    pub balances: Vec<BalanceResponse>,
}

pub struct TransferResponse {
    pub from: String,
    pub to: String,
    pub amount: u64,
    pub token: String,
    pub state: String,
}

pub struct StakeResponse {
    pub amount: u64,
    pub token: String,
    pub state: String,
    pub unbonding_period_secs: u64,
}

pub struct UnstakeResponse {
    pub id: String,
    pub amount: u64,
    pub token: String,
    pub unbond_at: u64,
    pub state: String,
}

pub struct UnbondingPosition {
    pub id: String,
    pub token: String,
    pub amount: u128,
    pub created_at: u64,
    pub unlock_at: u64,
}

pub struct StakeEntry {
    pub amount: u128,
    pub token: String,
    pub available: u128,
}

pub struct StakeStatusResponse {
    pub total_staked: u128,
    pub entries: Vec<StakeEntry>,
    pub unbonding: Vec<UnbondingPosition>,
}

pub struct ClaimUnbondedResponse {
    pub claimed_amount: u128,
    pub claimed_positions: usize,
    pub state: String,
}

/// Why a transfer is refused before the ledger is touched, if it is: the
/// recipient must be a DID and the amount positive.
pub open spec fn transfer_refusal(to: Seq<char>, amount: u64) -> Option<Seq<char>> {
    if to.len() == 0 {
        Some("recipient DID cannot be empty"@)
    } else if !has_prefix(to, "did:"@) {
        Some("recipient must be a valid DID (did:...)"@)
    } else if amount == 0 {
        Some("amount must be greater than 0"@)
    } else {
        None
    }
}

pub fn check_transfer(to: &str, amount: u64) -> (r: Result<(), ApiError>)
    ensures
        match transfer_refusal(to@, amount) {
            None => r is Ok,
            Some(m) => r is Err && r->Err_0@ == ApiErrorView::BadRequest(m),
        },
{
    if to.is_empty() {
        Err(ApiError::BadRequest("recipient DID cannot be empty".to_string()))
    } else if !str_starts_with(to, "did:") {
        Err(ApiError::BadRequest("recipient must be a valid DID (did:...)".to_string()))
    } else if amount == 0 {
        Err(ApiError::BadRequest("amount must be greater than 0".to_string()))
    } else {
        Ok(())
    }
}

/// Why a stake is refused before the ledger is touched, if it is: the amount
/// must be positive and at least the minimum stake.
pub open spec fn stake_refusal(amount: u64, min_stake: u64) -> Option<Seq<char>> {
    if amount == 0 {
        Some("amount must be greater than 0"@)
    } else if amount < min_stake {
        Some("amount "@ + decimal(amount as nat) + " is below minimum stake of "@ + decimal(min_stake as nat))
    } else {
        None
    }
}

pub fn check_stake(amount: u64, min_stake: u64) -> (r: Result<(), ApiError>)
    ensures
        match stake_refusal(amount, min_stake) {
            None => r is Ok,
            Some(m) => r is Err && r->Err_0@ == ApiErrorView::BadRequest(m),
        },
{
    if amount == 0 {
        Err(ApiError::BadRequest("amount must be greater than 0".to_string()))
    } else if amount < min_stake {
        let mut m = String::new();
        push_all(&mut m, "amount ");
        let a = decimal_string(amount as u128);
        push_all(&mut m, a.as_str());
        push_all(&mut m, " is below minimum stake of ");
        let b = decimal_string(min_stake as u128);
        push_all(&mut m, b.as_str());
        assert(m@ =~= "amount "@ + decimal(amount as nat) + " is below minimum stake of "@ + decimal(min_stake as nat));
        Err(ApiError::BadRequest(m))
    } else {
        Ok(())
    }
}

/// An unstake needs a positive amount.
pub fn check_unstake(amount: u64) -> (r: Result<(), ApiError>)
    ensures
        amount == 0 ==> r is Err && r->Err_0@ == ApiErrorView::BadRequest("amount must be greater than 0"@),
        amount > 0 ==> r is Ok,
{
    if amount == 0 {
        Err(ApiError::BadRequest("amount must be greater than 0".to_string()))
    } else {
        Ok(())
    }
}

/// The message when a stake needs more than the free balance.
pub fn stake_shortfall(required: u128, available: u128) -> (e: ApiError)
    ensures
        e@ == ApiErrorView::BadRequest(
            "insufficient balance: have "@ + decimal(available as nat) + ", need "@ + decimal(required as nat),
        ),
{
    let mut m = String::new();
    push_all(&mut m, "insufficient balance: have ");
    let a = decimal_string(available);
    push_all(&mut m, a.as_str());
    push_all(&mut m, ", need ");
    let b = decimal_string(required);
    push_all(&mut m, b.as_str());
    assert(m@ =~= "insufficient balance: have "@ + decimal(available as nat) + ", need "@ + decimal(required as nat));
    ApiError::BadRequest(m)
}

/// The message when no staked position can cover an unstake.
pub fn unstake_shortfall(amount: u64) -> (e: ApiError)
    ensures
        e@ == ApiErrorView::BadRequest(
            "no staked tokens found with sufficient balance to unstake "@ + decimal(amount as nat),
        ),
{
    let d = decimal_string(amount as u128);
    ApiError::BadRequest(concat("no staked tokens found with sufficient balance to unstake ", d.as_str()))
}

/// The state a claim of matured unbonding positions reports.
pub fn claim_state(claimed_positions: usize) -> (s: &'static str)
    ensures
        claimed_positions == 0 ==> s@ == "NothingMatured"@,
        claimed_positions > 0 ==> s@ == "Claimed"@,
{
    if claimed_positions == 0 { "NothingMatured" } else { "Claimed" }
}

/// One token kind's balance: what is free and what is staked.
#[derive(Clone, Copy, PartialEq, Eq, Structural, Debug)]
pub struct TokenHolding {
    pub token: TokenType,
    pub balance: u128,
    pub staked: u128,
}

/// The sum of the staked amounts.
pub open spec fn staked_sum(h: Seq<TokenHolding>) -> int
    decreases h.len(),
{
    if h.len() == 0 { 0 } else { staked_sum(h.drop_last()) + h.last().staked }
}

/// The holdings with something staked, in order.
pub open spec fn staked_only(h: Seq<TokenHolding>) -> Seq<TokenHolding>
    decreases h.len(),
{
    if h.len() == 0 {
        Seq::empty()
    } else if h.last().staked > 0 {
        staked_only(h.drop_last()).push(h.last())
    } else {
        staked_only(h.drop_last())
    }
}

/// The staking summary: the total staked and one entry for each token kind
/// with something staked, showing its staked and free amounts.
pub fn stake_summary(holdings: &Vec<TokenHolding>) -> (r: (u128, Vec<StakeEntry>))
    requires
        staked_sum(holdings@) <= u128::MAX,
    ensures
        r.0 == staked_sum(holdings@),
        r.1@.len() == staked_only(holdings@).len(),
        forall|i: int| 0 <= i < r.1@.len() ==> {
            let h = #[trigger] staked_only(holdings@)[i];
            &&& r.1@[i].amount == h.staked
            &&& r.1@[i].available == h.balance
            &&& r.1@[i].token@ == token_name(h.token)
        },
{
    let mut total: u128 = 0;
    let mut entries: Vec<StakeEntry> = Vec::new();
    let mut i: usize = 0;
    while i < holdings.len()
        invariant
            i <= holdings@.len(),
            staked_sum(holdings@) <= u128::MAX,
            total == staked_sum(holdings@.take(i as int)),
            entries@.len() == staked_only(holdings@.take(i as int)).len(),
            forall|k: int| 0 <= k < entries@.len() ==> {
                let h = #[trigger] staked_only(holdings@.take(i as int))[k];
                &&& entries@[k].amount == h.staked
                &&& entries@[k].available == h.balance
                &&& entries@[k].token@ == token_name(h.token)
            },
        decreases holdings.len() - i,
    {
        let h = &holdings[i];
        proof {
            assert(holdings@.take(i as int + 1).drop_last() =~= holdings@.take(i as int));
            assert(holdings@.take(i as int + 1).last() == holdings@[i as int]);
            lemma_staked_sum_prefix(holdings@, i as int + 1);
        }
        if h.staked > 0 {
            total = total + h.staked;
            entries.push(StakeEntry { amount: h.staked, token: token_type_display(h.token).to_string(), available: h.balance });
        }
        i = i + 1;
    }
    proof {
        assert(holdings@.take(holdings@.len() as int) =~= holdings@);
    }
    (total, entries)
}

proof fn lemma_staked_sum_prefix(h: Seq<TokenHolding>, k: int)
    requires
        0 <= k <= h.len(),
    ensures
        staked_sum(h.take(k)) <= staked_sum(h),
    decreases h.len(),
{
    if k == h.len() {
        assert(h.take(k) =~= h);
    } else {
        lemma_staked_sum_prefix(h.drop_last(), k);
        assert(h.drop_last().take(k) =~= h.take(k));
    }
}


/// A token kind is seeded only where the agent holds none of it, free or
/// staked, and the network seeds a positive amount of it.
pub open spec fn seed_due(h: TokenHolding, amount: u128) -> bool {
    h.balance == 0 && h.staked == 0 && amount > 0
}

/// A holding after seeding: the seed amount staked where it is due,
/// unchanged otherwise.
pub open spec fn after_seed(h: TokenHolding, amount: u128) -> TokenHolding {
    if seed_due(h, amount) {
        TokenHolding { token: h.token, balance: h.balance, staked: amount }
    } else {
        h
    }
}

/// Every holding after seeding, each with its own seed amount.
pub open spec fn seeded_all(h: Seq<TokenHolding>, amounts: Seq<u128>) -> Seq<TokenHolding> {
    Seq::new(h.len(), |i: int| after_seed(h[i], amounts[i]))
}

/// The total granted by seeding.
pub open spec fn seed_total(h: Seq<TokenHolding>, amounts: Seq<u128>) -> int
    decreases h.len(),
{
    if h.len() == 0 {
        0
    } else {
        let i = h.len() - 1;
        seed_total(h.drop_last(), amounts) + if seed_due(h[i], amounts[i]) {
            amounts[i] as int
        } else {
            0
        }
    }
}

/// The line that reports one grant: `nCompute: 500 (staked)`.
pub open spec fn grant_line(t: TokenType, amount: u128) -> Seq<char> {
    token_name(t) + ": "@ + decimal(amount as nat) + " (staked)"@
}

/// The grant lines of a seeding, in holding order.
pub open spec fn grant_lines(h: Seq<TokenHolding>, amounts: Seq<u128>) -> Seq<Seq<char>>
    decreases h.len(),
{
    if h.len() == 0 {
        Seq::empty()
    } else {
        let i = h.len() - 1;
        if seed_due(h[i], amounts[i]) {
            grant_lines(h.drop_last(), amounts).push(grant_line(h[i].token, amounts[i]))
        } else {
            grant_lines(h.drop_last(), amounts)
        }
    }
}

proof fn lemma_seed_total_prefix(h: Seq<TokenHolding>, amounts: Seq<u128>, k: int)
    requires
        0 <= k <= h.len(),
    ensures
        0 <= seed_total(h.take(k), amounts) <= seed_total(h, amounts),
    decreases h.len(),
{
    if k == h.len() {
        assert(h.take(k) =~= h);
        lemma_seed_total_nonneg(h, amounts);
    } else {
        lemma_seed_total_prefix(h.drop_last(), amounts, k);
        assert(h.drop_last().take(k) =~= h.take(k));
    }
}

proof fn lemma_seed_total_nonneg(h: Seq<TokenHolding>, amounts: Seq<u128>)
    ensures
        seed_total(h, amounts) >= 0,
    decreases h.len(),
{
    if h.len() > 0 {
        lemma_seed_total_nonneg(h.drop_last(), amounts);
    }
}

/// The line that reports one grant.
fn grant_text(t: TokenType, amount: u128) -> (s: String)
    ensures
        s@ == grant_line(t, amount),
{
    let head = concat(token_type_display(t), ": ");
    let with_amount = concat(head.as_str(), decimal_string(amount).as_str());
    concat(with_amount.as_str(), " (staked)")
}

/// Seeds an agent's holdings: each token kind of which it holds nothing,
/// free or staked, gets its seed amount staked. Returns the total granted
/// and one line per grant.
pub fn seed_holdings(holdings: &mut Vec<TokenHolding>, amounts: &Vec<u128>) -> (r: (u128, Vec<String>))
    requires
        old(holdings)@.len() == amounts@.len(),
        seed_total(old(holdings)@, amounts@) <= u128::MAX,
    ensures
        final(holdings)@ == seeded_all(old(holdings)@, amounts@),
        r.0 == seed_total(old(holdings)@, amounts@),
        views(r.1@) == grant_lines(old(holdings)@, amounts@),
{
    let ghost start = holdings@;
    let mut total: u128 = 0;
    let mut lines: Vec<String> = Vec::new();
    let mut i: usize = 0;
    while i < holdings.len()
        invariant
            start.len() == amounts@.len(),
            holdings@.len() == start.len(),
            i <= start.len(),
            seed_total(start, amounts@) <= u128::MAX,
            forall|k: int| 0 <= k < i ==> holdings@[k] == after_seed(start[k], amounts@[k]),
            forall|k: int| i <= k < start.len() ==> holdings@[k] == start[k],
            total == seed_total(start.take(i as int), amounts@),
            views(lines@) == grant_lines(start.take(i as int), amounts@),
        decreases start.len() - i,
    {
        let h = holdings[i];
        let amount = amounts[i];
        proof {
            assert(start.take(i as int + 1).drop_last() =~= start.take(i as int));
            lemma_seed_total_prefix(start, amounts@, i as int + 1);
        }
        if h.balance == 0 && h.staked == 0 && amount > 0 {
            holdings.set(i, TokenHolding { token: h.token, balance: h.balance, staked: amount });
            total = total + amount;
            let line = grant_text(h.token, amount);
            lines.push(line);
            proof {
                assert(views(lines@) =~= views(lines@.drop_last()).push(line@));
            }
        }
        i = i + 1;
    }
    proof {
        assert(start.take(start.len() as int) =~= start);
        assert(holdings@ =~= seeded_all(start, amounts@));
    }
    (total, lines)
}

/// What seeding from the token command reports: the total and the agent,
/// or that the agent already had tokens.
pub fn seed_status(did: &str, total: u128, granted: &Vec<String>) -> (s: String)
    ensures
        granted@.len() == 0 ==> s@ == did@ + " already has tokens \u{2014} seed skipped"@,
        granted@.len() > 0 ==> s@ == "Seeded "@ + decimal(total as nat) + " tokens to "@ + did@
            + " (staked only, not spendable)"@,
{
    if granted.len() == 0 {
        concat(did, " already has tokens \u{2014} seed skipped")
    } else {
        let a = concat("Seeded ", decimal_string(total).as_str());
        let b = concat(a.as_str(), " tokens to ");
        let c = concat(b.as_str(), did);
        concat(c.as_str(), " (staked only, not spendable)")
    }
}

/// What seeding at agent creation reports: the grants, joined, or nothing
/// when nothing was granted.
pub fn init_seed_status(granted: &Vec<String>) -> (s: Option<String>)
    ensures
        granted@.len() == 0 ==> s is None,
        granted@.len() > 0 ==> s is Some && s->0@ == "Seed tokens granted: "@ + join(views(granted@), ", "@),
{
    if granted.len() == 0 {
        None
    } else {
        let joined = join_strings(granted, ", ");
        Some(concat("Seed tokens granted: ", joined.as_str()))
    }
}

/// Seeding is done once: on seeded holdings a second seeding grants
/// nothing and changes nothing.
pub proof fn law_seed_once(h: Seq<TokenHolding>, amounts: Seq<u128>)
    requires
        h.len() == amounts.len(),
    ensures
        seed_total(seeded_all(h, amounts), amounts) == 0,
        grant_lines(seeded_all(h, amounts), amounts) == Seq::<Seq<char>>::empty(),
        seeded_all(seeded_all(h, amounts), amounts) == seeded_all(h, amounts),
{
    lemma_nothing_due(seeded_all(h, amounts), amounts);
    assert(seeded_all(seeded_all(h, amounts), amounts) =~= seeded_all(h, amounts));
}

proof fn lemma_nothing_due(h: Seq<TokenHolding>, amounts: Seq<u128>)
    requires
        forall|i: int| 0 <= i < h.len() ==> !seed_due(#[trigger] h[i], amounts[i]),
    ensures
        seed_total(h, amounts) == 0,
        grant_lines(h, amounts) == Seq::<Seq<char>>::empty(),
    decreases h.len(),
{
    if h.len() > 0 {
        let d = h.drop_last();
        assert forall|i: int| 0 <= i < d.len() implies !seed_due(#[trigger] d[i], amounts[i]) by {
            assert(d[i] == h[i]);
        }
        lemma_nothing_due(d, amounts);
    }
}

} // verus!
