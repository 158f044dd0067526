//! Bounties: the states a bounty passes through, the token it pays in, the
//! stored record, and the checks and settlements the bounty service makes
//! around each state transition.
use vstd::prelude::*;
use crate::api_error::{ApiError, ApiErrorView};
use crate::output::{Output, OutputView, outputs_view, result_view, rows_view};
use crate::text::{
    concat, decimal, decimal_string, has_infix, hex_number, pad_left, push_all, push_padded_hex, push_char, push_decimal, str_contains, str_eq,
    str_lowercase, to_lowercase, views,
};

verus! {

broadcast use vstd::string::group_string_axioms;

/// The states of a bounty.
#[derive(Clone, Copy, PartialEq, Eq, Structural, Debug)]
pub enum BountyState {
    Open,
    Claimed,
    Submitted,
    UnderReview,
    Revision,
    Accepted,
    Rejected,
    Disputed,
    Paid,
    Expired,
    Cancelled,
}

/// The state named by a lower-case word, if any.
pub open spec fn state_named(l: Seq<char>) -> Option<BountyState> {
    if l == "open"@ {
        Some(BountyState::Open)
    } else if l == "claimed"@ {
        Some(BountyState::Claimed)
    } else if l == "submitted"@ {
        Some(BountyState::Submitted)
    } else if l == "underreview"@ {
        Some(BountyState::UnderReview)
    } else if l == "revision"@ {
        Some(BountyState::Revision)
    } else if l == "accepted"@ {
        Some(BountyState::Accepted)
    } else if l == "rejected"@ {
        Some(BountyState::Rejected)
    } else if l == "disputed"@ {
        Some(BountyState::Disputed)
    } else if l == "paid"@ {
        Some(BountyState::Paid)
    } else if l == "expired"@ {
        Some(BountyState::Expired)
    } else if l == "cancelled"@ {
        Some(BountyState::Cancelled)
    } else {
        None
    }
}

fn state_of_lower(t: &str) -> (r: Option<BountyState>)
    ensures
        r == state_named(t@),
{
    if str_eq(t, "open") {
        Some(BountyState::Open)
    } else if str_eq(t, "claimed") {
        Some(BountyState::Claimed)
    } else if str_eq(t, "submitted") {
        Some(BountyState::Submitted)
    } else if str_eq(t, "underreview") {
        Some(BountyState::UnderReview)
    } else if str_eq(t, "revision") {
        Some(BountyState::Revision)
    } else if str_eq(t, "accepted") {
        Some(BountyState::Accepted)
    } else if str_eq(t, "rejected") {
        Some(BountyState::Rejected)
    } else if str_eq(t, "disputed") {
        Some(BountyState::Disputed)
    } else if str_eq(t, "paid") {
        Some(BountyState::Paid)
    } else if str_eq(t, "expired") {
        Some(BountyState::Expired)
    } else if str_eq(t, "cancelled") {
        Some(BountyState::Cancelled)
    } else {
        None
    }
}

/// The state a user typed, in any case (`str::to_lowercase`), if it names one.
pub fn parse_bounty_state(s: &str) -> (r: Option<BountyState>)
    ensures
        r == state_named(str_lowercase(s@)),
{
    let l = to_lowercase(s);
    state_of_lower(l.as_str())
}

/// `c` with ASCII upper-case letters made lower-case (`char::to_ascii_lowercase`).
pub open spec fn ascii_lower_char(c: char) -> char {
    if 'A' <= c && c <= 'Z' { ((c as u32) + 32) as char } else { c }
}

/// `s` with ASCII upper-case letters made lower-case (`str::to_ascii_lowercase`).
pub open spec fn ascii_lower(s: Seq<char>) -> Seq<char> {
    s.map_values(|c: char| ascii_lower_char(c))
}

fn ascii_lowercase(s: &str) -> (r: String)
    ensures
        r@ == ascii_lower(s@),
{
    let cs = crate::text::chars_of(s);
    let mut r = String::new();
    let mut i: usize = 0;
    while i < cs.len()
        invariant
            i <= cs.len(),
            cs@ == s@,
            r@ == ascii_lower(s@.take(i as int)),
        decreases cs.len() - i,
    {
        let c = cs[i];
        let d = if 'A' <= c && c <= 'Z' {
            let b: u8 = (c as u8) + 32;
            b as char
        } else {
            c
        };
        assert(d == ascii_lower_char(c));
        push_char(&mut r, d);
        assert(ascii_lower(s@.take(i as int + 1)) =~= ascii_lower(s@.take(i as int)).push(d));
        i = i + 1;
    }
    assert(s@.take(cs.len() as int) =~= s@);
    r
}

/// The message for a stored state that names no state.
pub open spec fn bad_stored_state_text(value: Seq<char>) -> Seq<char> {
    "invalid bounty state in storage: '"@ + value + "'"@
}

/// The state a stored record names, read in any ASCII case
/// (`str::to_ascii_lowercase`), or why the record is unreadable.
pub fn stored_state(value: &str) -> (r: Result<BountyState, BountyServiceError>)
    ensures
        match state_named(ascii_lower(value@)) {
            Some(st) => r is Ok && r->Ok_0 == st,
            None => r is Err && r->Err_0@ == ServiceErrorView::Invalid(bad_stored_state_text(value@)),
        },
{
    let l = ascii_lowercase(value);
    match state_of_lower(l.as_str()) {
        Some(st) => Ok(st),
        None => {
            let mut m = concat("invalid bounty state in storage: '", value);
            push_all(&mut m, "'");
            Err(BountyServiceError::Invalid(m))
        },
    }
}

/// The token kind a stored byte names, or why the record is unreadable.
pub fn stored_token_type(b: u8) -> (r: Result<TokenType, BountyServiceError>)
    ensures
        match token_of_code(b) {
            Some(t) => r is Ok && r->Ok_0 == t,
            None => r is Err && r->Err_0@ == ServiceErrorView::Invalid(
                "invalid token type code: "@ + decimal(b as nat),
            ),
        },
{
    match token_type_from_code(b) {
        Some(t) => Ok(t),
        None => {
            let d = decimal_string(b as u128);
            Err(BountyServiceError::Invalid(concat("invalid token type code: ", d.as_str())))
        },
    }
}

/// The name under which a state is stored (its variant name).
pub open spec fn stored_state_name(s: BountyState) -> Seq<char> {
    match s {
        BountyState::Open => "Open"@,
        BountyState::Claimed => "Claimed"@,
        BountyState::Submitted => "Submitted"@,
        BountyState::UnderReview => "UnderReview"@,
        BountyState::Revision => "Revision"@,
        BountyState::Accepted => "Accepted"@,
        BountyState::Rejected => "Rejected"@,
        BountyState::Disputed => "Disputed"@,
        BountyState::Paid => "Paid"@,
        BountyState::Expired => "Expired"@,
        BountyState::Cancelled => "Cancelled"@,
    }
}

impl BountyState {
    /// The name under which this state is stored.
    pub fn stored_name(&self) -> (s: &'static str)
        ensures
            s@ == stored_state_name(*self),
    {
        match self {
            BountyState::Open => "Open",
            BountyState::Claimed => "Claimed",
            BountyState::Submitted => "Submitted",
            BountyState::UnderReview => "UnderReview",
            BountyState::Revision => "Revision",
            BountyState::Accepted => "Accepted",
            BountyState::Rejected => "Rejected",
            BountyState::Disputed => "Disputed",
            BountyState::Paid => "Paid",
            BountyState::Expired => "Expired",
            BountyState::Cancelled => "Cancelled",
        }
    }
}

/// The four token kinds a bounty can pay in.
#[derive(Clone, Copy, PartialEq, Eq, Structural, Debug)]
pub enum TokenType {
    Compute,
    Train,
    Bandwidth,
    Storage,
}

/// The byte under which a token kind is stored.
pub open spec fn token_code(t: TokenType) -> u8 {
    match t {
        TokenType::Compute => 1u8,
        TokenType::Train => 2u8,
        TokenType::Bandwidth => 3u8,
        TokenType::Storage => 4u8,
    }
}

/// The token kind stored under a byte, if any.
pub open spec fn token_of_code(b: u8) -> Option<TokenType> {
    if b == 1 {
        Some(TokenType::Compute)
    } else if b == 2 {
        Some(TokenType::Train)
    } else if b == 3 {
        Some(TokenType::Bandwidth)
    } else if b == 4 {
        Some(TokenType::Storage)
    } else {
        None
    }
}

/// The token kind named by a lower-case word, with or without the `n` prefix.
pub open spec fn token_named(l: Seq<char>) -> Option<TokenType> {
    if l == "compute"@ || l == "ncompute"@ {
        Some(TokenType::Compute)
    } else if l == "train"@ || l == "ntrain"@ {
        Some(TokenType::Train)
    } else if l == "bandwidth"@ || l == "nbandwidth"@ {
        Some(TokenType::Bandwidth)
    } else if l == "storage"@ || l == "nstorage"@ {
        Some(TokenType::Storage)
    } else {
        None
    }
}

/// The message for a token name that names no token kind.
pub open spec fn bad_token_text(s: Seq<char>) -> Seq<char> {
    "invalid token type '"@ + s + "'. Must be one of: compute, train, bandwidth, storage"@
}

/// What parsing a token name gives.
pub open spec fn token_parse(s: Seq<char>) -> Result<TokenType, ApiErrorView> {
    match token_named(str_lowercase(s)) {
        Some(t) => Ok(t),
        None => Err(ApiErrorView::BadRequest(bad_token_text(s))),
    }
}

/// The view of a result whose error is an [`ApiError`].
pub open spec fn api_result<T>(r: Result<T, ApiError>) -> Result<T, ApiErrorView> {
    match r {
        Ok(t) => Ok(t),
        Err(e) => Err(e@),
    }
}

/// The token kind named by `s`, in any case.
pub fn parse_token_type(s: &str) -> (r: Result<TokenType, ApiError>)
    ensures
        api_result(r) == token_parse(s@),
{
    let l = to_lowercase(s);
    let t = l.as_str();
    if str_eq(t, "compute") || str_eq(t, "ncompute") {
        Ok(TokenType::Compute)
    } else if str_eq(t, "train") || str_eq(t, "ntrain") {
        Ok(TokenType::Train)
    } else if str_eq(t, "bandwidth") || str_eq(t, "nbandwidth") {
        Ok(TokenType::Bandwidth)
    } else if str_eq(t, "storage") || str_eq(t, "nstorage") {
        Ok(TokenType::Storage)
    } else {
        let mut m = concat("invalid token type '", s);
        push_all(&mut m, "'. Must be one of: compute, train, bandwidth, storage");
        Err(ApiError::BadRequest(m))
    }
}

impl TokenType {
    /// The byte under which this token kind is stored.
    pub fn code(&self) -> (b: u8)
        ensures
            b == token_code(*self),
    {
        match self {
            TokenType::Compute => 1,
            TokenType::Train => 2,
            TokenType::Bandwidth => 3,
            TokenType::Storage => 4,
        }
    }
}

/// The token kind stored under `b`, if any.
pub fn token_type_from_code(b: u8) -> (r: Option<TokenType>)
    ensures
        r == token_of_code(b),
{
    if b == 1 {
        Some(TokenType::Compute)
    } else if b == 2 {
        Some(TokenType::Train)
    } else if b == 3 {
        Some(TokenType::Bandwidth)
    } else if b == 4 {
        Some(TokenType::Storage)
    } else {
        None
    }
}

/// Storing a token kind and reading it back gives the same kind.
pub proof fn law_token_code_roundtrip(t: TokenType)
    ensures
        token_of_code(token_code(t)) == Some(t),
{
}


/// A bounty as it is stored.
pub struct BountyData {
    pub id: String,
    /// The stored state name (see [`stored_state_name`]).
    pub state: String,
    pub requester_did: String,
    pub provider_did: Option<String>,
    pub reward_amount: u64,
    pub reward_token_type: u8,
    pub deadline: u64,
    pub created_at: u64,
    pub escrow_deposited: u64,
    pub title: String,
    pub description: String,
    pub claim_deadline: u64,
    pub work_deadline: u64,
    pub review_deadline: u64,
    pub artifact_hash: Option<String>,
    pub bond: Option<u64>,
}

/// A failure of the store underneath the bounty service.
pub enum StorageFailure {
    /// A transfer needed more than the payer holds.
    InsufficientBalance { required: u128, available: u128 },
    /// Any other storage failure, by its message.
    Other(String),
}

/// Why the bounty service refused or failed an operation.
pub enum BountyServiceError {
    /// No bounty has this id.
    NotFound(String),
    /// The request is not allowed; the message says why.
    Invalid(String),
    /// The store failed.
    Storage(StorageFailure),
}

/// The mathematical content of a [`BountyServiceError`].
pub enum ServiceErrorView {
    NotFound(Seq<char>),
    Invalid(Seq<char>),
    InsufficientBalance { required: u128, available: u128 },
    StorageOther(Seq<char>),
}

impl View for BountyServiceError {
    type V = ServiceErrorView;

    open spec fn view(&self) -> ServiceErrorView {
        match self {
            BountyServiceError::NotFound(id) => ServiceErrorView::NotFound(id@),
            BountyServiceError::Invalid(m) => ServiceErrorView::Invalid(m@),
            BountyServiceError::Storage(StorageFailure::InsufficientBalance { required, available }) =>
                ServiceErrorView::InsufficientBalance { required: *required, available: *available },
            BountyServiceError::Storage(StorageFailure::Other(m)) => ServiceErrorView::StorageOther(m@),
        }
    }
}

/// The view of a result whose error is a [`BountyServiceError`].
pub open spec fn service_result<T>(r: Result<T, BountyServiceError>) -> Result<T, ServiceErrorView> {
    match r {
        Ok(t) => Ok(t),
        Err(e) => Err(e@),
    }
}

/// The "not found" message for a bounty id.
pub open spec fn not_found_text(id: Seq<char>) -> Seq<char> {
    "bounty '"@ + id + "' not found"@
}

fn not_found_message(id: &str) -> (m: String)
    ensures
        m@ == not_found_text(id@),
{
    let mut m = concat("bounty '", id);
    push_all(&mut m, "' not found");
    m
}

/// The insufficient-balance message of the HTTP API.
pub open spec fn shortfall_text(required: u128, available: u128) -> Seq<char> {
    "insufficient balance: required "@ + decimal(required as nat) + ", available "@ + decimal(
        available as nat,
    )
}

/// How the HTTP API reports a service error.
pub open spec fn service_error_of(e: ServiceErrorView) -> ApiErrorView {
    match e {
        ServiceErrorView::NotFound(id) => ApiErrorView::NotFound(not_found_text(id)),
        ServiceErrorView::Invalid(m) => ApiErrorView::BadRequest(m),
        ServiceErrorView::InsufficientBalance { required, available } => ApiErrorView::BadRequest(
            shortfall_text(required, available),
        ),
        ServiceErrorView::StorageOther(m) => ApiErrorView::Internal(m),
    }
}

/// The HTTP API error for a service error.
pub fn service_error(e: BountyServiceError) -> (r: ApiError)
    ensures
        r@ == service_error_of(e@),
{
    match e {
        BountyServiceError::NotFound(id) => ApiError::NotFound(not_found_message(id.as_str())),
        BountyServiceError::Invalid(m) => ApiError::BadRequest(m),
        BountyServiceError::Storage(StorageFailure::InsufficientBalance { required, available }) => {
            let mut m = String::new();
            push_all(&mut m, "insufficient balance: required ");
            let r = decimal_string(required);
            push_all(&mut m, r.as_str());
            push_all(&mut m, ", available ");
            let a = decimal_string(available);
            push_all(&mut m, a.as_str());
            assert(m@ =~= shortfall_text(required, available));
            ApiError::BadRequest(m)
        },
        BountyServiceError::Storage(StorageFailure::Other(m)) => ApiError::Internal(m),
    }
}

fn invalid(m: &str) -> (e: BountyServiceError)
    ensures
        e@ == ServiceErrorView::Invalid(m@),
{
    BountyServiceError::Invalid(m.to_string())
}

/// What the checks before a claim give: the id must be given and the stake
/// must be positive.
pub open spec fn claim_check(id: Seq<char>, stake: u64) -> Result<(), ServiceErrorView> {
    if id.len() == 0 {
        Err(ServiceErrorView::Invalid("bounty id cannot be empty"@))
    } else if stake == 0 {
        Err(ServiceErrorView::Invalid("stake must be greater than 0"@))
    } else {
        Ok(())
    }
}

pub fn check_claim(bounty_id: &str, stake: u64) -> (r: Result<(), BountyServiceError>)
    ensures
        service_result(r) == claim_check(bounty_id@, stake),
{
    if bounty_id.is_empty() {
        Err(invalid("bounty id cannot be empty"))
    } else if stake == 0 {
        Err(invalid("stake must be greater than 0"))
    } else {
        Ok(())
    }
}

/// What the checks before a submission give: the id and the artifact must be given.
pub open spec fn submit_check(id: Seq<char>, artifact: Seq<char>) -> Result<(), ServiceErrorView> {
    if id.len() == 0 {
        Err(ServiceErrorView::Invalid("bounty id cannot be empty"@))
    } else if artifact.len() == 0 {
        Err(ServiceErrorView::Invalid("artifact CID cannot be empty"@))
    } else {
        Ok(())
    }
}

pub fn check_submit(bounty_id: &str, artifact: &str) -> (r: Result<(), BountyServiceError>)
    ensures
        service_result(r) == submit_check(bounty_id@, artifact@),
{
    if bounty_id.is_empty() {
        Err(invalid("bounty id cannot be empty"))
    } else if artifact.is_empty() {
        Err(invalid("artifact CID cannot be empty"))
    } else {
        Ok(())
    }
}

/// The message for a review score above 100.
pub open spec fn bad_score_text(score: u8) -> Seq<char> {
    "invalid score: "@ + decimal(score as nat) + " (must be 0-100)"@
}

/// What the checks before a review give: the id must be given and the score
/// must be at most 100.
pub open spec fn review_check(id: Seq<char>, score: u8) -> Result<(), ServiceErrorView> {
    if id.len() == 0 {
        Err(ServiceErrorView::Invalid("bounty id cannot be empty"@))
    } else if score > 100 {
        Err(ServiceErrorView::Invalid(bad_score_text(score)))
    } else {
        Ok(())
    }
}

pub fn check_review(bounty_id: &str, score: u8) -> (r: Result<(), BountyServiceError>)
    ensures
        service_result(r) == review_check(bounty_id@, score),
{
    if bounty_id.is_empty() {
        Err(invalid("bounty id cannot be empty"))
    } else if score > 100 {
        let mut m = String::new();
        push_all(&mut m, "invalid score: ");
        let d = decimal_string(score as u128);
        push_all(&mut m, d.as_str());
        push_all(&mut m, " (must be 0-100)");
        assert(m@ =~= bad_score_text(score));
        Err(BountyServiceError::Invalid(m))
    } else {
        Ok(())
    }
}

/// What the check before a cancellation or a payment gives: the id must be given.
pub open spec fn id_check(id: Seq<char>) -> Result<(), ServiceErrorView> {
    if id.len() == 0 {
        Err(ServiceErrorView::Invalid("bounty id cannot be empty"@))
    } else {
        Ok(())
    }
}

pub fn check_bounty_id(bounty_id: &str) -> (r: Result<(), BountyServiceError>)
    ensures
        service_result(r) == id_check(bounty_id@),
{
    if bounty_id.is_empty() {
        Err(invalid("bounty id cannot be empty"))
    } else {
        Ok(())
    }
}

/// The bounty the store found under `bounty_id`, or "not found".
pub fn load_bounty(bounty_id: &str, found: Option<BountyData>) -> (r: Result<BountyData, BountyServiceError>)
    ensures
        found is Some ==> r == Ok::<BountyData, BountyServiceError>(found.unwrap()),
        found is None ==> r is Err && r->Err_0@ == ServiceErrorView::NotFound(bounty_id@),
{
    match found {
        Some(b) => Ok(b),
        None => Err(BountyServiceError::NotFound(bounty_id.to_string())),
    }
}

/// Only the creator of a bounty may review, cancel or pay it.
pub fn require_creator(bounty: &BountyData, actor: &str) -> (r: Result<(), BountyServiceError>)
    ensures
        bounty.requester_did@ == actor@ ==> r is Ok,
        bounty.requester_did@ != actor@ ==> r is Err && r->Err_0@ == ServiceErrorView::Invalid(
            "only the bounty creator may perform this action"@,
        ),
{
    if !str_eq(bounty.requester_did.as_str(), actor) {
        Err(invalid("only the bounty creator may perform this action"))
    } else {
        Ok(())
    }
}

/// Whether `actor` is the claimant recorded on a bounty.
pub open spec fn is_claimant(bounty: BountyData, actor: Seq<char>) -> bool {
    match bounty.provider_did {
        Some(p) => p@ == actor,
        None => false,
    }
}

/// Only the claimant of a bounty may submit work for it.
pub fn require_claimant(bounty: &BountyData, actor: &str) -> (r: Result<(), BountyServiceError>)
    ensures
        is_claimant(*bounty, actor@) ==> r is Ok,
        !is_claimant(*bounty, actor@) ==> r is Err && r->Err_0@ == ServiceErrorView::Invalid(
            "only the bounty claimant may submit work"@,
        ),
{
    let ok = match &bounty.provider_did {
        Some(p) => str_eq(p.as_str(), actor),
        None => false,
    };
    if !ok {
        Err(invalid("only the bounty claimant may submit work"))
    } else {
        Ok(())
    }
}

/// The id of a new bounty made at `ts` (nanoseconds) as the `cnt`-th of
/// this process: `bnty_`, the time in lowercase hex padded to 12 digits, and
/// the count modulo 65536 in 4 hex digits.
pub open spec fn bounty_id_of(ts: u64, cnt: u64) -> Seq<char> {
    "bnty_"@ + pad_left(hex_number(ts as nat), 12, '0') + pad_left(hex_number((cnt % 65536) as nat), 4, '0')
}

pub fn bounty_id_text(ts: u64, cnt: u64) -> (s: String)
    ensures
        s@ == bounty_id_of(ts, cnt),
{
    let mut s = "bnty_".to_string();
    push_padded_hex(&mut s, ts, 12);
    push_padded_hex(&mut s, cnt % 65536, 4);
    s
}

/// The account that holds a bounty's escrow.
pub open spec fn escrow_account(id: Seq<char>) -> Seq<char> {
    "escrow:"@ + id
}

pub fn escrow_did(bounty_id: &str) -> (r: String)
    ensures
        r@ == escrow_account(bounty_id@),
{
    concat("escrow:", bounty_id)
}

/// What a review score decides once the review is recorded.
#[derive(Clone, Copy, PartialEq, Eq, Structural, Debug)]
pub enum ReviewVerdict {
    /// 60 or more: the work is accepted.
    Accept,
    /// Below 40: the work is rejected.
    Reject,
    /// From 40 to 59: the bounty stays under review.
    Undecided,
}

pub open spec fn verdict_of(score: u8) -> ReviewVerdict {
    if score >= 60 {
        ReviewVerdict::Accept
    } else if score < 40 {
        ReviewVerdict::Reject
    } else {
        ReviewVerdict::Undecided
    }
}

pub fn review_verdict(score: u8) -> (v: ReviewVerdict)
    ensures
        v == verdict_of(score),
{
    if score >= 60 {
        ReviewVerdict::Accept
    } else if score < 40 {
        ReviewVerdict::Reject
    } else {
        ReviewVerdict::Undecided
    }
}

/// A review of submitted work first moves the bounty under review.
pub fn review_starts_from(state: BountyState) -> (b: bool)
    ensures
        b == (state == BountyState::Submitted),
{
    match state {
        BountyState::Submitted => true,
        _ => false,
    }
}

/// An event the bounty service hands to the bounty state machine during a review.
#[derive(Clone, Copy, PartialEq, Eq, Structural, Debug)]
pub enum ReviewEvent {
    /// Move submitted work under review.
    StartReview,
    /// Record the score given to the submitted work.
    SubmitReview(u8),
    /// Accept the work.
    Accept,
    /// Reject the work.
    Reject,
}

/// The events a review with `score` fires, in order, on a bounty in `state`:
/// submitted work is first moved under review, the score is recorded, and
/// the verdict, if the score decides one, follows.
pub open spec fn review_events(state: BountyState, score: u8) -> Seq<ReviewEvent> {
    let start = if state == BountyState::Submitted { seq![ReviewEvent::StartReview] } else { Seq::empty() };
    let verdict = match verdict_of(score) {
        ReviewVerdict::Accept => seq![ReviewEvent::Accept],
        ReviewVerdict::Reject => seq![ReviewEvent::Reject],
        ReviewVerdict::Undecided => Seq::empty(),
    };
    start + seq![ReviewEvent::SubmitReview(score)] + verdict
}

pub fn review_event_plan(state: BountyState, score: u8) -> (v: Vec<ReviewEvent>)
    ensures
        v@ == review_events(state, score),
{
    let mut v: Vec<ReviewEvent> = Vec::new();
    if review_starts_from(state) {
        v.push(ReviewEvent::StartReview);
    }
    v.push(ReviewEvent::SubmitReview(score));
    match review_verdict(score) {
        ReviewVerdict::Accept => v.push(ReviewEvent::Accept),
        ReviewVerdict::Reject => v.push(ReviewEvent::Reject),
        ReviewVerdict::Undecided => {},
    }
    assert(v@ =~= review_events(state, score));
    v
}

/// The bond recorded on a bounty, or 0.
pub open spec fn bond_of(b: BountyData) -> u64 {
    match b.bond {
        Some(x) => x,
        None => 0,
    }
}

/// The sum of a list of payouts.
pub open spec fn payout_total(p: Seq<(Seq<char>, u128)>) -> int
    decreases p.len(),
{
    if p.len() == 0 {
        0
    } else {
        payout_total(p.drop_last()) + p.last().1
    }
}

proof fn lemma_payout_total_small(a: (Seq<char>, u128), b: (Seq<char>, u128))
    ensures
        payout_total(seq![a]) == a.1,
        payout_total(seq![a, b]) == a.1 + b.1,
{
    assert(seq![a].drop_last() =~= Seq::<(Seq<char>, u128)>::empty());
    assert(seq![a, b].drop_last() =~= seq![a]);
    assert(payout_total(Seq::<(Seq<char>, u128)>::empty()) == 0);
    assert(payout_total(seq![a]) == payout_total(seq![a].drop_last()) + seq![a].last().1);
    assert(payout_total(seq![a, b]) == payout_total(seq![a, b].drop_last()) + seq![a, b].last().1);
}

/// The view of a list of payouts.
pub open spec fn payouts_view(p: Seq<(String, u128)>) -> Seq<(Seq<char>, u128)> {
    p.map_values(|x: (String, u128)| (x.0@, x.1))
}

/// What a cancellation pays out of escrow: the reward back to the creator and,
/// when a bond was staked, the bond back to the claimant.
pub open spec fn cancel_payouts_of(b: BountyData) -> Result<Seq<(Seq<char>, u128)>, ServiceErrorView> {
    if bond_of(b) > 0 {
        match b.provider_did {
            Some(p) => Ok(seq![(b.requester_did@, b.reward_amount as u128), (p@, bond_of(b) as u128)]),
            None => Err(ServiceErrorView::Invalid("claimed bounty has no provider"@)),
        }
    } else {
        Ok(seq![(b.requester_did@, b.reward_amount as u128)])
    }
}

pub fn cancel_payouts(b: &BountyData) -> (r: Result<Vec<(String, u128)>, BountyServiceError>)
    ensures
        match r {
            Ok(p) => cancel_payouts_of(*b) == Ok::<Seq<(Seq<char>, u128)>, ServiceErrorView>(payouts_view(p@)),
            Err(e) => cancel_payouts_of(*b) == Err::<Seq<(Seq<char>, u128)>, ServiceErrorView>(e@),
        },
        r is Ok ==> payout_total(cancel_payouts_of(*b)->Ok_0) == b.reward_amount + bond_of(*b),
{
    let bond: u64 = match b.bond {
        Some(x) => x,
        None => 0,
    };
    let mut payouts: Vec<(String, u128)> = Vec::new();
    payouts.push((b.requester_did.clone(), b.reward_amount as u128));
    if bond > 0 {
        match &b.provider_did {
            Some(p) => {
                payouts.push((p.clone(), bond as u128));
                assert(payouts_view(payouts@) =~= seq![(b.requester_did@, b.reward_amount as u128), (p@, bond as u128)]);
                proof {
                    lemma_payout_total_small((b.requester_did@, b.reward_amount as u128), (p@, bond as u128));
                }
                Ok(payouts)
            },
            None => Err(invalid("claimed bounty has no provider")),
        }
    } else {
        assert(payouts_view(payouts@) =~= seq![(b.requester_did@, b.reward_amount as u128)]);
        proof {
            lemma_payout_total_small((b.requester_did@, b.reward_amount as u128), (b.requester_did@, 0));
        }
        Ok(payouts)
    }
}

/// What paying an accepted bounty hands its claimant.
pub struct PaymentResult {
    pub claimant: String,
    pub reward_paid: u64,
    pub bond_returned: u64,
}

/// The single payout of a paid bounty: reward and bond together to the claimant.
pub open spec fn pay_payout_of(b: BountyData) -> Result<(Seq<char>, u128), ServiceErrorView> {
    match b.provider_did {
        Some(p) => Ok((p@, (b.reward_amount + bond_of(b)) as u128)),
        None => Err(ServiceErrorView::Invalid("bounty has no claimant"@)),
    }
}

/// The payout of a paid bounty and what the payment reports.
pub fn settle_payment(b: &BountyData) -> (r: Result<(PaymentResult, (String, u128)), BountyServiceError>)
    ensures
        match r {
            Ok((pay, out)) => {
                &&& pay_payout_of(*b) == Ok::<(Seq<char>, u128), ServiceErrorView>((out.0@, out.1))
                &&& pay.claimant@ == out.0@
                &&& pay.reward_paid == b.reward_amount
                &&& pay.bond_returned == bond_of(*b)
            },
            Err(e) => pay_payout_of(*b) == Err::<(Seq<char>, u128), ServiceErrorView>(e@),
        },
{
    match &b.provider_did {
        None => Err(invalid("bounty has no claimant")),
        Some(p) => {
            let bond: u64 = match b.bond {
                Some(x) => x,
                None => 0,
            };
            let total: u128 = (b.reward_amount as u128) + (bond as u128);
            let pay = PaymentResult { claimant: p.clone(), reward_paid: b.reward_amount, bond_returned: bond };
            Ok((pay, (p.clone(), total)))
        },
    }
}

/// Whichever way a claimed bounty leaves escrow, cancelled or paid, the
/// same amount leaves: the reward plus the bond.
pub proof fn law_cancel_and_pay_release_the_same(b: BountyData)
    requires
        b.provider_did is Some,
    ensures
        cancel_payouts_of(b) is Ok,
        pay_payout_of(b) is Ok,
        payout_total(cancel_payouts_of(b)->Ok_0) == pay_payout_of(b)->Ok_0.1,
{
    let p = b.provider_did->Some_0;
    lemma_payout_total_small((b.requester_did@, b.reward_amount as u128), (p@, bond_of(b) as u128));
}

/// What the payouts `p` pay to account `a`.
pub open spec fn received(p: Seq<(Seq<char>, u128)>, a: Seq<char>) -> int
    decreases p.len(),
{
    if p.len() == 0 {
        0
    } else {
        received(p.drop_last(), a) + if p.last().0 == a { p.last().1 as int } else { 0 }
    }
}

/// The balance of account `a` once the payouts `p` are paid out of account
/// `from` into `bal`.
pub open spec fn balance_after(bal: Map<Seq<char>, int>, from: Seq<char>, p: Seq<(Seq<char>, u128)>, a: Seq<char>) -> int {
    bal[a] - (if a == from { payout_total(p) } else { 0 }) + received(p, a)
}

proof fn lemma_received_two(x: (Seq<char>, u128), y: (Seq<char>, u128), a: Seq<char>)
    ensures
        received(seq![x], a) == (if x.0 == a { x.1 as int } else { 0 }),
        received(seq![x, y], a) == (if x.0 == a { x.1 as int } else { 0 }) + (if y.0 == a { y.1 as int } else { 0 }),
{
    assert(seq![x].drop_last() =~= Seq::<(Seq<char>, u128)>::empty());
    assert(seq![x, y].drop_last() =~= seq![x]);
    assert(received(Seq::<(Seq<char>, u128)>::empty(), a) == 0);
    assert(seq![x].last() == x);
    assert(seq![x, y].last() == y);
    assert(received(seq![x], a) == received(seq![x].drop_last(), a) + if seq![x].last().0 == a {
        seq![x].last().1 as int
    } else {
        0
    });
    assert(received(seq![x, y], a) == received(seq![x, y].drop_last(), a) + if seq![x, y].last().0 == a {
        seq![x, y].last().1 as int
    } else {
        0
    });
}

/// Cancelling a bounty whose escrow holds its reward and bond empties the
/// escrow account, gives the reward back to the creator and the bond back to
/// the claimant; no other account changes.
pub proof fn law_cancel_empties_escrow(b: BountyData, bal: Map<Seq<char>, int>, a: Seq<char>)
    requires
        cancel_payouts_of(b) is Ok,
        bal[escrow_account(b.id@)] == b.reward_amount + bond_of(b),
        b.requester_did@ != escrow_account(b.id@),
        b.provider_did is Some ==> b.provider_did->Some_0@ != escrow_account(b.id@),
    ensures
        ({
            let p = cancel_payouts_of(b)->Ok_0;
            let e = escrow_account(b.id@);
            &&& balance_after(bal, e, p, e) == 0
            &&& a != e ==> balance_after(bal, e, p, a) == bal[a]
                + (if a == b.requester_did@ { b.reward_amount as int } else { 0 })
                + (if bond_of(b) > 0 && a == b.provider_did->Some_0@ { bond_of(b) as int } else { 0 })
        }),
{
    let e = escrow_account(b.id@);
    let r = (b.requester_did@, b.reward_amount as u128);
    if bond_of(b) > 0 {
        let q = (b.provider_did->Some_0@, bond_of(b) as u128);
        lemma_payout_total_small(r, q);
        lemma_received_two(r, q, a);
        lemma_received_two(r, q, e);
    } else {
        lemma_payout_total_small(r, r);
        lemma_received_two(r, r, a);
        lemma_received_two(r, r, e);
    }
}

/// Paying a bounty whose escrow holds its reward and bond empties the
/// escrow account into the claimant's: the claimant gains reward plus bond,
/// and no other account changes.
pub proof fn law_pay_empties_escrow(b: BountyData, bal: Map<Seq<char>, int>, a: Seq<char>)
    requires
        b.provider_did is Some,
        bal[escrow_account(b.id@)] == b.reward_amount + bond_of(b),
        b.provider_did->Some_0@ != escrow_account(b.id@),
    ensures
        ({
            let p = seq![pay_payout_of(b)->Ok_0];
            let e = escrow_account(b.id@);
            &&& balance_after(bal, e, p, e) == 0
            &&& a != e ==> balance_after(bal, e, p, a) == bal[a]
                + (if a == b.provider_did->Some_0@ { b.reward_amount + bond_of(b) } else { 0 })
        }),
{
    let x = pay_payout_of(b)->Ok_0;
    let e = escrow_account(b.id@);
    lemma_payout_total_small(x, x);
    lemma_received_two(x, x, a);
    lemma_received_two(x, x, e);
}

/// The state a review leaves a bounty in: accepted from a score of 60,
/// rejected below 40, still under review in between.
pub open spec fn review_outcome(score: u8) -> BountyState {
    match verdict_of(score) {
        ReviewVerdict::Accept => BountyState::Accepted,
        ReviewVerdict::Reject => BountyState::Rejected,
        ReviewVerdict::Undecided => BountyState::UnderReview,
    }
}

/// The state a review event moves a bounty to, as this library models the
/// bounty state machine of the `neunode_bounty` crate (which it does not
/// hold): starting a review moves submitted work under review, recording a
/// score keeps it there, and the verdict accepts or rejects reviewed work.
/// Any other step is refused.
pub open spec fn review_step(state: BountyState, e: ReviewEvent) -> Option<BountyState> {
    match e {
        ReviewEvent::StartReview => if state == BountyState::Submitted { Some(BountyState::UnderReview) } else { None },
        ReviewEvent::SubmitReview(_) => if state == BountyState::UnderReview { Some(BountyState::UnderReview) } else { None },
        ReviewEvent::Accept => if state == BountyState::UnderReview { Some(BountyState::Accepted) } else { None },
        ReviewEvent::Reject => if state == BountyState::UnderReview { Some(BountyState::Rejected) } else { None },
    }
}

/// The state after a run of review events in the model of [`review_step`],
/// or `None` if one is refused.
pub open spec fn after_review_events(state: BountyState, es: Seq<ReviewEvent>) -> Option<BountyState>
    decreases es.len(),
{
    if es.len() == 0 {
        Some(state)
    } else {
        match review_step(state, es[0]) {
            Some(next) => after_review_events(next, es.drop_first()),
            None => None,
        }
    }
}

/// In the model of [`review_step`], a review of submitted work, or of work
/// under review, runs through and leaves the bounty accepted from a score of
/// 60, rejected below 40, and under review in between.
pub proof fn law_review_outcome(state: BountyState, score: u8)
    requires
        state == BountyState::Submitted || state == BountyState::UnderReview,
    ensures
        after_review_events(state, review_events(state, score)) == Some(review_outcome(score)),
{
    let es = review_events(state, score);
    let tail = match verdict_of(score) {
        ReviewVerdict::Accept => seq![ReviewEvent::Accept],
        ReviewVerdict::Reject => seq![ReviewEvent::Reject],
        ReviewVerdict::Undecided => Seq::<ReviewEvent>::empty(),
    };
    let rest = seq![ReviewEvent::SubmitReview(score)] + tail;
    assert(rest.drop_first() =~= tail);
    assert(rest[0] == ReviewEvent::SubmitReview(score));
    if tail.len() > 0 {
        assert(tail.drop_first() =~= Seq::<ReviewEvent>::empty());
        assert(after_review_events(review_outcome(score), Seq::<ReviewEvent>::empty()) == Some(review_outcome(score)));
        assert(review_step(BountyState::UnderReview, tail[0]) == Some(review_outcome(score)));
    }
    assert(after_review_events(BountyState::UnderReview, tail) == Some(review_outcome(score)));
    assert(after_review_events(BountyState::UnderReview, rest) == Some(review_outcome(score)));
    if state == BountyState::Submitted {
        assert(es =~= seq![ReviewEvent::StartReview] + rest);
        assert(es.drop_first() =~= rest);
    } else {
        assert(es =~= Seq::<ReviewEvent>::empty() + rest);
    }
}

/// What the store can hold of an amount: amounts above `u64::MAX` are refused.
pub fn storage_amount(amount: u128, what_is_reward: bool) -> (r: Result<u64, BountyServiceError>)
    ensures
        amount <= u64::MAX ==> r == Ok::<u64, BountyServiceError>(amount as u64),
        amount > u64::MAX && what_is_reward ==> r is Err && r->Err_0@ == ServiceErrorView::Invalid(
            "reward exceeds storage range"@,
        ),
        amount > u64::MAX && !what_is_reward ==> r is Err && r->Err_0@ == ServiceErrorView::Invalid(
            "bond exceeds storage range"@,
        ),
{
    if amount <= u64::MAX as u128 {
        Ok(amount as u64)
    } else if what_is_reward {
        Err(invalid("reward exceeds storage range"))
    } else {
        Err(invalid("bond exceeds storage range"))
    }
}


// ---------------------------------------------------------------------------
// HTTP API requests and responses
// ---------------------------------------------------------------------------

/// The body of a request that creates a bounty. Deadlines are in hours.
pub struct CreateBountyRequest {
    pub title: String,
    pub description: String,
    pub reward: u64,
    pub token: String,
    pub claim_deadline: u64,
    pub work_deadline: u64,
}

/// The token a bounty pays in when the request names none.
pub fn default_token() -> (s: String)
    ensures
        s@ == "compute"@,
{
    "compute".to_string()
}

/// The claim deadline, in hours, when the request gives none.
pub fn default_claim() -> (h: u64)
    ensures
        h == 72,
{
    72
}

/// The work deadline, in hours, when the request gives none.
pub fn default_work() -> (h: u64)
    ensures
        h == 168,
{
    168
}

/// The body of a claim: the bond the claimant stakes.
pub struct ClaimBountyRequest {
    pub stake: u64,
}

/// The body of a submission.
pub struct SubmitBountyRequest {
    pub artifact: String,
    pub evidence: Option<String>,
}

/// The body of a review.
pub struct ReviewBountyRequest {
    pub score: u8,
    pub feedback: String,
}

/// The body of a cancellation.
pub struct CancelBountyRequest {
    pub reason: Option<String>,
}

/// The filters of a bounty listing.
pub struct BountyListQuery {
    pub state: Option<String>,
    pub creator: Option<String>,
    pub limit: usize,
}

/// How many bounties a listing shows when the query gives no limit.
pub fn default_limit() -> (n: usize)
    ensures
        n == 50,
{
    50
}

/// A bounty as the HTTP API shows it.
pub struct BountyResponse {
    pub id: String,
    pub title: String,
    pub description: String,
    pub state: String,
    pub creator: String,
    pub claimant: Option<String>,
    pub reward: u64,
    pub reward_token_type: u8,
    pub escrow_deposited: u64,
    pub created_at: u64,
    pub claim_deadline: u64,
    pub work_deadline: u64,
    pub review_deadline: u64,
    pub artifact_hash: Option<String>,
    pub bond: Option<u64>,
}

/// One line of a bounty listing.
pub struct BountyListItem {
    pub id: String,
    pub title: String,
    pub state: String,
    pub reward: u64,
    pub creator: String,
    pub created_at: u64,
}

pub struct BountyClaimResponse {
    pub bounty_id: String,
    pub claimant: String,
    pub bond: u64,
    pub state: String,
}

pub struct BountySubmitResponse {
    pub bounty_id: String,
    pub artifact_cid: String,
    pub state: String,
}

pub struct BountyReviewResponse {
    pub bounty_id: String,
    pub score: u8,
    pub feedback: String,
    pub state: String,
}

pub struct BountyCancelResponse {
    pub bounty_id: String,
    pub state: String,
    pub reason: String,
}

pub struct BountyPayResponse {
    pub bounty_id: String,
    pub claimant: String,
    pub amount_paid: u64,
    pub bond_returned: u64,
    pub state: String,
}

/// The view of an optional string.
pub open spec fn opt_str(o: Option<String>) -> Option<Seq<char>> {
    match o {
        Some(s) => Some(s@),
        None => None,
    }
}

fn clone_opt(o: &Option<String>) -> (r: Option<String>)
    ensures
        opt_str(r) == opt_str(*o),
{
    match o {
        Some(s) => Some(s.clone()),
        None => None,
    }
}

/// Whether a response shows exactly the fields of a stored bounty.
pub open spec fn shows(r: BountyResponse, d: BountyData) -> bool {
    &&& r.id@ == d.id@
    &&& r.title@ == d.title@
    &&& r.description@ == d.description@
    &&& r.state@ == d.state@
    &&& r.creator@ == d.requester_did@
    &&& opt_str(r.claimant) == opt_str(d.provider_did)
    &&& r.reward == d.reward_amount
    &&& r.reward_token_type == d.reward_token_type
    &&& r.escrow_deposited == d.escrow_deposited
    &&& r.created_at == d.created_at
    &&& r.claim_deadline == d.claim_deadline
    &&& r.work_deadline == d.work_deadline
    &&& r.review_deadline == d.review_deadline
    &&& opt_str(r.artifact_hash) == opt_str(d.artifact_hash)
    &&& r.bond == d.bond
}

/// The response that shows a stored bounty.
pub fn bounty_data_to_response(data: &BountyData) -> (r: BountyResponse)
    ensures
        shows(r, *data),
{
    BountyResponse {
        id: data.id.clone(),
        title: data.title.clone(),
        description: data.description.clone(),
        state: data.state.clone(),
        creator: data.requester_did.clone(),
        claimant: clone_opt(&data.provider_did),
        reward: data.reward_amount,
        reward_token_type: data.reward_token_type,
        escrow_deposited: data.escrow_deposited,
        created_at: data.created_at,
        claim_deadline: data.claim_deadline,
        work_deadline: data.work_deadline,
        review_deadline: data.review_deadline,
        artifact_hash: clone_opt(&data.artifact_hash),
        bond: data.bond,
    }
}

/// `a + b`, or `u64::MAX` when the sum does not fit.
pub open spec fn sat_add(a: u64, b: int) -> u64 {
    if a + b > u64::MAX { u64::MAX } else { (a + b) as u64 }
}

/// Seconds in an hour and in a day.
pub const SECS_PER_HOUR: u64 = 3600;

pub const SECS_PER_DAY: u64 = 86400;

/// The review period after the work deadline, in days.
pub const REVIEW_DAYS: u64 = 3;

/// Why a creation request is refused before any token moves, if it is.
pub open spec fn create_refusal(req: CreateBountyRequest) -> Option<ApiErrorView> {
    if req.title@.len() == 0 {
        Some(ApiErrorView::BadRequest("title cannot be empty"@))
    } else if req.description@.len() == 0 {
        Some(ApiErrorView::BadRequest("description cannot be empty"@))
    } else if req.reward == 0 {
        Some(ApiErrorView::BadRequest("reward must be greater than 0"@))
    } else {
        match token_parse(req.token@) {
            Err(e) => Some(e),
            Ok(_) => None,
        }
    }
}

/// Whether `d` is the record of a new bounty made from `req`, with id `id`,
/// created by `creator` at `now`: open, unclaimed, with its whole reward in
/// escrow and its deadlines counted from `now`.
pub open spec fn new_record(d: BountyData, req: CreateBountyRequest, id: Seq<char>, creator: Seq<char>, now: u64) -> bool {
    let work = sat_add(now, req.work_deadline * 3600);
    &&& d.id@ == id
    &&& d.state@ == "Open"@
    &&& d.requester_did@ == creator
    &&& d.provider_did is None
    &&& d.reward_amount == req.reward
    &&& token_parse(req.token@) is Ok
    &&& d.reward_token_type == token_code(token_parse(req.token@)->Ok_0)
    &&& d.deadline == work
    &&& d.created_at == now
    &&& d.escrow_deposited == req.reward
    &&& d.title@ == req.title@
    &&& d.description@ == req.description@
    &&& d.claim_deadline == sat_add(now, req.claim_deadline * 3600)
    &&& d.work_deadline == work
    &&& d.review_deadline == sat_add(work, 259200int)
    &&& d.artifact_hash is None
    &&& d.bond is None
}

fn saturating(a: u64, b: u64) -> (r: u64)
    ensures
        r == sat_add(a, b as int),
{
    a.saturating_add(b)
}

/// The record of a new bounty, or why the request is refused. The id, the
/// creator and the time are handed in by the caller.
pub fn new_bounty_record(req: &CreateBountyRequest, id: &str, creator: &str, now: u64) -> (r: Result<BountyData, ApiError>)
    requires
        req.claim_deadline * 3600 <= u64::MAX,
        req.work_deadline * 3600 <= u64::MAX,
    ensures
        match r {
            Ok(d) => create_refusal(*req) is None && new_record(d, *req, id@, creator@, now),
            Err(e) => create_refusal(*req) == Some(e@),
        },
{
    if req.title.as_str().is_empty() {
        return Err(ApiError::BadRequest("title cannot be empty".to_string()));
    }
    if req.description.as_str().is_empty() {
        return Err(ApiError::BadRequest("description cannot be empty".to_string()));
    }
    if req.reward == 0 {
        return Err(ApiError::BadRequest("reward must be greater than 0".to_string()));
    }
    let token = match parse_token_type(req.token.as_str()) {
        Ok(t) => t,
        Err(e) => return Err(e),
    };
    let claim = saturating(now, req.claim_deadline * SECS_PER_HOUR);
    let work = saturating(now, req.work_deadline * SECS_PER_HOUR);
    let review = saturating(work, REVIEW_DAYS * SECS_PER_DAY);
    Ok(BountyData {
        id: id.to_string(),
        state: "Open".to_string(),
        requester_did: creator.to_string(),
        provider_did: None,
        reward_amount: req.reward,
        reward_token_type: token.code(),
        deadline: work,
        created_at: now,
        escrow_deposited: req.reward,
        title: req.title.clone(),
        description: req.description.clone(),
        claim_deadline: claim,
        work_deadline: work,
        review_deadline: review,
        artifact_hash: None,
        bond: None,
    })
}


// ---------------------------------------------------------------------------
// Command-line listing and display
// ---------------------------------------------------------------------------

/// How a reward is shown: the amount and the token byte.
pub open spec fn reward_text(b: BountyData) -> Seq<char> {
    decimal(b.reward_amount as nat) + " (type "@ + decimal(b.reward_token_type as nat) + ")"@
}

fn reward_string(b: &BountyData) -> (s: String)
    ensures
        s@ == reward_text(*b),
{
    let mut s = decimal_string(b.reward_amount as u128);
    push_all(&mut s, " (type ");
    push_decimal(&mut s, b.reward_token_type as u128);
    push_all(&mut s, ")");
    assert(s@ =~= reward_text(*b));
    s
}

/// The row a listing shows for a bounty.
pub open spec fn list_row(b: BountyData) -> Seq<Seq<char>> {
    seq![b.id@, b.state@, reward_text(b), b.requester_did@, decimal(b.created_at as nat)]
}

/// The view of an optional filter.
pub open spec fn opt_filter(o: Option<&str>) -> Option<Seq<char>> {
    match o {
        Some(s) => Some(s@),
        None => None,
    }
}

/// Whether the command-line listing keeps a bounty: its state names the same
/// state as the filter (both read in any case), and its creator contains the
/// creator filter.
pub open spec fn cli_keeps(sf: Option<Seq<char>>, cf: Option<Seq<char>>, b: BountyData) -> bool {
    &&& match sf {
        None => true,
        Some(f) => state_named(str_lowercase(f)) == state_named(str_lowercase(b.state@)),
    }
    &&& match cf {
        None => true,
        Some(c) => has_infix(b.requester_did@, c),
    }
}

/// The bounties the command-line listing keeps, in order.
pub open spec fn cli_kept(all: Seq<BountyData>, sf: Option<Seq<char>>, cf: Option<Seq<char>>) -> Seq<BountyData>
    decreases all.len(),
{
    if all.len() == 0 {
        Seq::empty()
    } else {
        let rest = cli_kept(all.drop_last(), sf, cf);
        if cli_keeps(sf, cf, all.last()) {
            rest.push(all.last())
        } else {
            rest
        }
    }
}

/// The first `n` items of `s`, or all of them when there are fewer.
pub open spec fn first_n<T>(s: Seq<T>, n: nat) -> Seq<T> {
    if n >= s.len() { s } else { s.take(n as int) }
}

/// The column headers of a bounty listing.
pub open spec fn list_headers() -> Seq<Seq<char>> {
    seq!["ID"@, "State"@, "Reward"@, "Creator"@, "Created"@]
}

/// What the command-line listing shows: a table of at most `limit` kept
/// bounties, or a status line when none is kept.
pub open spec fn cli_listing(all: Seq<BountyData>, sf: Option<Seq<char>>, cf: Option<Seq<char>>, limit: nat) -> Seq<OutputView> {
    let chosen = first_n(cli_kept(all, sf, cf), limit);
    if chosen.len() == 0 {
        seq![OutputView::Status("No bounties found"@)]
    } else {
        seq![OutputView::Table { headers: list_headers(), rows: chosen.map_values(|b: BountyData| list_row(b)) }]
    }
}

fn same_state(a: Option<BountyState>, b: Option<BountyState>) -> (r: bool)
    ensures
        r == (a == b),
{
    match (a, b) {
        (None, None) => true,
        (Some(x), Some(y)) => x == y,
        _ => false,
    }
}

fn cli_keeps_exec(sf: Option<&str>, cf: Option<&str>, b: &BountyData) -> (r: bool)
    ensures
        r == cli_keeps(opt_filter(sf), opt_filter(cf), *b),
{
    let state_ok = match sf {
        None => true,
        Some(f) => same_state(parse_bounty_state(f), parse_bounty_state(b.state.as_str())),
    };
    let creator_ok = match cf {
        None => true,
        Some(c) => str_contains(b.requester_did.as_str(), c),
    };
    state_ok && creator_ok
}

fn list_row_exec(b: &BountyData) -> (r: Vec<String>)
    ensures
        views(r@) == list_row(*b),
{
    let mut r: Vec<String> = Vec::new();
    r.push(b.id.clone());
    r.push(b.state.clone());
    r.push(reward_string(b));
    r.push(b.requester_did.clone());
    r.push(decimal_string(b.created_at as u128));
    assert(views(r@) =~= list_row(*b));
    r
}

fn str_vec(items: &[&str]) -> (r: Vec<String>)
    ensures
        r@.len() == items@.len(),
        forall|i: int| 0 <= i < items@.len() ==> r@[i]@ == items@[i]@,
{
    let mut r: Vec<String> = Vec::new();
    let mut i: usize = 0;
    while i < items.len()
        invariant
            i <= items@.len(),
            r@.len() == i,
            forall|j: int| 0 <= j < i ==> r@[j]@ == items@[j]@,
        decreases items.len() - i,
    {
        r.push(items[i].to_string());
        i = i + 1;
    }
    r
}

/// The command-line listing of the stored bounties `all`.
pub fn list_bounties(state_filter: Option<&str>, creator_filter: Option<&str>, limit: usize, all: &Vec<BountyData>) -> (out: Vec<Output>)
    ensures
        outputs_view(out@) == cli_listing(all@, opt_filter(state_filter), opt_filter(creator_filter), limit as nat),
{
    let ghost sf = opt_filter(state_filter);
    let ghost cf = opt_filter(creator_filter);
    let mut rows: Vec<Vec<String>> = Vec::new();
    let mut i: usize = 0;
    while i < all.len()
        invariant
            i <= all@.len(),
            sf == opt_filter(state_filter),
            cf == opt_filter(creator_filter),
            rows_view(rows@) == first_n(cli_kept(all@.take(i as int), sf, cf), limit as nat).map_values(
                |b: BountyData| list_row(b),
            ),
            rows@.len() == first_n(cli_kept(all@.take(i as int), sf, cf), limit as nat).len(),
        decreases all.len() - i,
    {
        let b = &all[i];
        let ghost before = cli_kept(all@.take(i as int), sf, cf);
        proof {
            assert(all@.take(i as int + 1).drop_last() =~= all@.take(i as int));
            assert(all@.take(i as int + 1).last() == all@[i as int]);
        }
        let keep = cli_keeps_exec(state_filter, creator_filter, b);
        if keep && rows.len() < limit {
            let row = list_row_exec(b);
            let ghost old_rows = rows@;
            rows.push(row);
            proof {
                let after = before.push(*b);
                assert(cli_kept(all@.take(i as int + 1), sf, cf) == after);
                assert(first_n(before, limit as nat) == before);
                assert(first_n(after, limit as nat) == after);
                assert(rows_view(rows@) =~= rows_view(old_rows).push(views(row@)));
                assert(after.map_values(|b: BountyData| list_row(b)) =~= before.map_values(
                    |b: BountyData| list_row(b),
                ).push(list_row(*b)));
            }
        } else {
            proof {
                if keep {
                    let after = before.push(*b);
                    assert(cli_kept(all@.take(i as int + 1), sf, cf) == after);
                    assert(first_n(after, limit as nat) =~= first_n(before, limit as nat));
                } else {
                    assert(cli_kept(all@.take(i as int + 1), sf, cf) == before);
                }
            }
        }
        i = i + 1;
    }
    proof {
        assert(all@.take(all@.len() as int) =~= all@);
    }
    let mut out: Vec<Output> = Vec::new();
    if rows.len() == 0 {
        out.push(Output::Status("No bounties found".to_string()));
        assert(outputs_view(out@) =~= cli_listing(all@, sf, cf, limit as nat));
    } else {
        let headers = str_vec(&["ID", "State", "Reward", "Creator", "Created"]);
        assert(views(headers@) =~= list_headers());
        out.push(Output::Table { headers, rows });
        assert(outputs_view(out@) =~= cli_listing(all@, sf, cf, limit as nat));
    }
    out
}


/// The labelled fields the command line shows for one bounty.
pub open spec fn show_pairs(b: BountyData) -> Seq<(Seq<char>, Seq<char>)> {
    seq![
        ("ID"@, b.id@),
        ("Title"@, b.title@),
        ("Description"@, b.description@),
        ("State"@, b.state@),
        ("Creator"@, b.requester_did@),
        ("Claimant"@, match b.provider_did { Some(p) => p@, None => "none"@ }),
        ("Reward"@, reward_text(b)),
        ("Escrow"@, decimal(b.escrow_deposited as nat)),
        ("Created"@, decimal(b.created_at as nat)),
        ("Claim Deadline"@, decimal(b.claim_deadline as nat)),
        ("Work Deadline"@, decimal(b.work_deadline as nat)),
        ("Review Deadline"@, decimal(b.review_deadline as nat)),
    ]
}

/// What showing bounty `id` gives, where `found` is what the store holds under it.
pub open spec fn show_result(id: Seq<char>, found: Option<BountyData>) -> Result<Seq<OutputView>, Seq<char>> {
    if id.len() == 0 {
        Err("bounty id cannot be empty"@)
    } else {
        match found {
            None => Err(not_found_text(id)),
            Some(b) => Ok(seq![OutputView::Pairs(show_pairs(b))]),
        }
    }
}

fn pair(k: &str, v: String) -> (p: (String, String))
    ensures
        p.0@ == k@,
        p.1@ == v@,
{
    (k.to_string(), v)
}

/// Shows bounty `bounty_id`; `found` is what the store holds under that id.
pub fn show_bounty(bounty_id: &str, found: Option<BountyData>) -> (r: Result<Vec<Output>, String>)
    ensures
        result_view(r) == show_result(bounty_id@, found),
{
    if bounty_id.is_empty() {
        return Err("bounty id cannot be empty".to_string());
    }
    let b = match found {
        None => return Err(not_found_message(bounty_id)),
        Some(b) => b,
    };
    let claimant = match &b.provider_did {
        Some(p) => p.clone(),
        None => "none".to_string(),
    };
    let mut pairs: Vec<(String, String)> = Vec::new();
    pairs.push(pair("ID", b.id.clone()));
    pairs.push(pair("Title", b.title.clone()));
    pairs.push(pair("Description", b.description.clone()));
    pairs.push(pair("State", b.state.clone()));
    pairs.push(pair("Creator", b.requester_did.clone()));
    pairs.push(pair("Claimant", claimant));
    pairs.push(pair("Reward", reward_string(&b)));
    pairs.push(pair("Escrow", decimal_string(b.escrow_deposited as u128)));
    pairs.push(pair("Created", decimal_string(b.created_at as u128)));
    pairs.push(pair("Claim Deadline", decimal_string(b.claim_deadline as u128)));
    pairs.push(pair("Work Deadline", decimal_string(b.work_deadline as u128)));
    pairs.push(pair("Review Deadline", decimal_string(b.review_deadline as u128)));
    let mut out: Vec<Output> = Vec::new();
    out.push(Output::Pairs(pairs));
    proof {
        assert(crate::output::pairs_view(pairs@) =~= show_pairs(b));
        assert(outputs_view(out@) =~= seq![OutputView::Pairs(show_pairs(b))]);
    }
    Ok(out)
}

/// Whether the HTTP listing keeps a bounty: its state equals the filter once
/// both are lower-cased, and its creator contains the creator filter.
pub open spec fn api_keeps(q: BountyListQuery, b: BountyData) -> bool {
    &&& match q.state {
        None => true,
        Some(f) => str_lowercase(f@) == str_lowercase(b.state@),
    }
    &&& match q.creator {
        None => true,
        Some(c) => has_infix(b.requester_did@, c@),
    }
}

/// The bounties the HTTP listing keeps, in order.
pub open spec fn api_kept(all: Seq<BountyData>, q: BountyListQuery) -> Seq<BountyData>
    decreases all.len(),
{
    if all.len() == 0 {
        Seq::empty()
    } else {
        let rest = api_kept(all.drop_last(), q);
        if api_keeps(q, all.last()) {
            rest.push(all.last())
        } else {
            rest
        }
    }
}

/// Whether a listing item shows a stored bounty.
pub open spec fn lists(item: BountyListItem, b: BountyData) -> bool {
    &&& item.id@ == b.id@
    &&& item.title@ == b.title@
    &&& item.state@ == b.state@
    &&& item.reward == b.reward_amount
    &&& item.creator@ == b.requester_did@
    &&& item.created_at == b.created_at
}

fn api_keeps_exec(q: &BountyListQuery, b: &BountyData) -> (r: bool)
    ensures
        r == api_keeps(*q, *b),
{
    let state_ok = match &q.state {
        None => true,
        Some(f) => {
            let x = to_lowercase(f.as_str());
            let y = to_lowercase(b.state.as_str());
            str_eq(x.as_str(), y.as_str())
        },
    };
    let creator_ok = match &q.creator {
        None => true,
        Some(c) => str_contains(b.requester_did.as_str(), c.as_str()),
    };
    state_ok && creator_ok
}

/// The HTTP listing of the stored bounties `all`: at most `q.limit` of the
/// kept bounties, in order.
pub fn list_items(all: &Vec<BountyData>, q: &BountyListQuery) -> (items: Vec<BountyListItem>)
    ensures
        items@.len() == first_n(api_kept(all@, *q), q.limit as nat).len(),
        forall|k: int| 0 <= k < items@.len() ==> lists(#[trigger] items@[k], first_n(api_kept(all@, *q), q.limit as nat)[k]),
        items@.len() <= q.limit,
        forall|k: int| 0 <= k < items@.len() ==> match q.creator {
            Some(c) => has_infix((#[trigger] items@[k]).creator@, c@),
            None => true,
        },
        forall|k: int| 0 <= k < items@.len() ==> match q.state {
            Some(f) => str_lowercase(f@) == str_lowercase((#[trigger] items@[k]).state@),
            None => true,
        },
{
    let mut items: Vec<BountyListItem> = Vec::new();
    let mut i: usize = 0;
    while i < all.len()
        invariant
            i <= all@.len(),
            items@.len() == first_n(api_kept(all@.take(i as int), *q), q.limit as nat).len(),
            forall|k: int| 0 <= k < items@.len() ==> lists(#[trigger] items@[k], first_n(api_kept(all@.take(i as int), *q), q.limit as nat)[k]),
        decreases all.len() - i,
    {
        let b = &all[i];
        let ghost before = api_kept(all@.take(i as int), *q);
        proof {
            assert(all@.take(i as int + 1).drop_last() =~= all@.take(i as int));
            assert(all@.take(i as int + 1).last() == all@[i as int]);
        }
        let keep = api_keeps_exec(q, b);
        if keep && items.len() < q.limit {
            let item = BountyListItem {
                id: b.id.clone(),
                title: b.title.clone(),
                state: b.state.clone(),
                reward: b.reward_amount,
                creator: b.requester_did.clone(),
                created_at: b.created_at,
            };
            items.push(item);
            proof {
                let after = before.push(*b);
                assert(api_kept(all@.take(i as int + 1), *q) == after);
                assert(first_n(before, q.limit as nat) == before);
                assert(first_n(after, q.limit as nat) == after);
            }
        } else {
            proof {
                if keep {
                    let after = before.push(*b);
                    assert(api_kept(all@.take(i as int + 1), *q) == after);
                    assert(first_n(after, q.limit as nat) =~= first_n(before, q.limit as nat));
                } else {
                    assert(api_kept(all@.take(i as int + 1), *q) == before);
                }
            }
        }
        i = i + 1;
    }
    proof {
        assert(all@.take(all@.len() as int) =~= all@);
        law_listing_filters(all@, *q);
        let f = first_n(api_kept(all@, *q), q.limit as nat);
        assert forall|k: int| 0 <= k < items@.len() implies match q.creator {
            Some(c) => has_infix((#[trigger] items@[k]).creator@, c@),
            None => true,
        } && match q.state {
            Some(st) => str_lowercase(st@) == str_lowercase(items@[k].state@),
            None => true,
        } by {
            assert(f[k] == api_kept(all@, *q)[k]);
            assert(lists(items@[k], f[k]));
        }
    }
    items
}

/// The HTTP listing keeps, in order, exactly the stored bounties whose state
/// equals the state filter ignoring case and whose creator's DID contains
/// the creator filter (a filter left out keeps everything).
pub proof fn law_api_listing_is_filter(all: Seq<BountyData>, q: BountyListQuery)
    ensures
        api_kept(all, q) == all.filter(
            |b: BountyData|
                (q.state is None || str_lowercase(q.state->Some_0@) == str_lowercase(b.state@)) && (q.creator is None
                    || has_infix(b.requester_did@, q.creator->Some_0@)),
        ),
    decreases all.len(),
{
    reveal(Seq::filter);
    if all.len() > 0 {
        law_api_listing_is_filter(all.drop_last(), q);
    }
}

/// The command-line listing keeps, in order, exactly the stored bounties
/// whose state names the same state as the state filter (read in any case)
/// and whose creator's DID contains the creator filter.
pub proof fn law_cli_listing_is_filter(all: Seq<BountyData>, sf: Option<Seq<char>>, cf: Option<Seq<char>>)
    ensures
        cli_kept(all, sf, cf) == all.filter(
            |b: BountyData|
                (sf is None || state_named(str_lowercase(sf->Some_0)) == state_named(str_lowercase(b.state@))) && (
                cf is None || has_infix(b.requester_did@, cf->Some_0)),
        ),
    decreases all.len(),
{
    reveal(Seq::filter);
    if all.len() > 0 {
        law_cli_listing_is_filter(all.drop_last(), sf, cf);
    }
}

/// Every bounty the HTTP listing keeps is one of the stored bounties, its
/// creator's DID contains the creator filter, if any, and its state equals
/// the state filter, if any, ignoring case.
pub proof fn law_listing_filters(all: Seq<BountyData>, q: BountyListQuery)
    ensures
        forall|k: int| 0 <= k < api_kept(all, q).len() ==> {
            &&& all.contains(#[trigger] api_kept(all, q)[k])
            &&& match q.creator {
                Some(c) => has_infix(api_kept(all, q)[k].requester_did@, c@),
                None => true,
            }
            &&& match q.state {
                Some(f) => str_lowercase(f@) == str_lowercase(api_kept(all, q)[k].state@),
                None => true,
            }
        },
        api_kept(all, q).len() <= all.len(),
    decreases all.len(),
{
    if all.len() > 0 {
        let d = all.drop_last();
        law_listing_filters(d, q);
        let rest = api_kept(d, q);
        assert forall|k: int| 0 <= k < api_kept(all, q).len() implies {
            &&& all.contains(#[trigger] api_kept(all, q)[k])
            &&& match q.creator {
                Some(c) => has_infix(api_kept(all, q)[k].requester_did@, c@),
                None => true,
            }
            &&& match q.state {
                Some(f) => str_lowercase(f@) == str_lowercase(api_kept(all, q)[k].state@),
                None => true,
            }
        } by {
            if k < rest.len() {
                assert(api_kept(all, q)[k] == rest[k]);
                assert(d.contains(rest[k]));
                let j = choose|j: int| 0 <= j < d.len() && d[j] == rest[k];
                assert(all[j] == d[j]);
            } else {
                assert(api_kept(all, q)[k] == all.last());
                assert(api_keeps(q, all.last()));
                assert(all[all.len() - 1] == all.last());
            }
        }
    }
}

} // verus!
