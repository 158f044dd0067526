//! The web dashboard: the values its pages show, and how stored records are
//! turned into them.
use vstd::prelude::*;
use crate::bounty::BountyData;
use crate::feed::{first_n, FeedEventUpdate, StoredEvent};
use crate::text::{
    parse_unsigned, parse_unsigned_max, trim, has_infix, str_contains,
    byte_prefix, byte_suffix, bytes_to_hex, chars_of, chars_range, concat, decimal, decimal_string, hex_of,
    is_boundary, lemma_boundary_unique, prefix, push_all, str_eq, str_lowercase, take_chars, to_lowercase,
    utf8_len, utf8_scan,
};
use crate::verification::unix_time_now;
use vstd::utf8::{decode_utf8, valid_utf8};

verus! {

broadcast use vstd::string::group_string_axioms;

/// The label the dashboard shows for a feed event kind.
pub open spec fn kind_label_text(kind: u16) -> Seq<char> {
    if kind == 0 { "METADATA"@ }
    else if kind == 1 { "CAPABILITY"@ }
    else if kind == 1000 { "BOUNTY_CREATED"@ }
    else if kind == 1001 { "BOUNTY_CLAIMED"@ }
    else if kind == 1002 { "BOUNTY_SUBMITTED"@ }
    else if kind == 1003 { "BOUNTY_REVIEWED"@ }
    else if kind == 1004 { "BOUNTY_DISPUTED"@ }
    else if kind == 1005 { "BOUNTY_RESOLVED"@ }
    else if kind == 1100 { "ESCROW_DEPOSIT"@ }
    else if kind == 1101 { "ESCROW_RELEASE"@ }
    else if kind == 2000 { "TRAINING_START"@ }
    else if kind == 2001 { "TRAINING_PROGRESS"@ }
    else if kind == 2002 { "TRAINING_COMPLETE"@ }
    else if kind == 3000 { "ATTESTATION"@ }
    else if kind == 3001 { "COUNTER_ATTEST"@ }
    else if kind == 4000 { "MODEL_PUBLISHED"@ }
    else if kind == 4001 { "SERVE_OFFER"@ }
    else if kind == 5000 { "GOV_PROPOSAL"@ }
    else if kind == 5001 { "GOV_VOTE"@ }
    else if kind == 9001 { "POST"@ }
    else if kind == 9002 { "REPLY"@ }
    else { "KIND_"@ + decimal(kind as nat) }
}

pub fn kind_label(kind: u16) -> (s: String)
    ensures
        s@ == kind_label_text(kind),
{
    let l = match kind {
        0 => "METADATA",
        1 => "CAPABILITY",
        1000 => "BOUNTY_CREATED",
        1001 => "BOUNTY_CLAIMED",
        1002 => "BOUNTY_SUBMITTED",
        1003 => "BOUNTY_REVIEWED",
        1004 => "BOUNTY_DISPUTED",
        1005 => "BOUNTY_RESOLVED",
        1100 => "ESCROW_DEPOSIT",
        1101 => "ESCROW_RELEASE",
        2000 => "TRAINING_START",
        2001 => "TRAINING_PROGRESS",
        2002 => "TRAINING_COMPLETE",
        3000 => "ATTESTATION",
        3001 => "COUNTER_ATTEST",
        4000 => "MODEL_PUBLISHED",
        4001 => "SERVE_OFFER",
        5000 => "GOV_PROPOSAL",
        5001 => "GOV_VOTE",
        9001 => "POST",
        9002 => "REPLY",
        _ => {
            return concat("KIND_", decimal_string(kind as u128).as_str());
        },
    };
    l.to_string()
}

/// A DID shortened for display: when it is longer than 20 bytes, its first
/// 12 bytes, `...`, and its last 4 bytes.
pub open spec fn truncated_did(did: Seq<char>) -> Seq<char> {
    let n = utf8_len(did);
    if n > 20 { byte_prefix(did, 12) + "..."@ + byte_suffix(did, (n - 4) as nat) } else { did }
}

/// A DID can be cut where [`truncated_did`] cuts it.
pub open spec fn truncatable(did: Seq<char>) -> bool {
    let n = utf8_len(did);
    n > 20 ==> is_boundary(did, 12) && is_boundary(did, (n - 4) as nat)
}

pub fn truncate_did(did: &str) -> (r: String)
    requires
        truncatable(did@),
        utf8_len(did@) <= usize::MAX,
    ensures
        r@ == truncated_did(did@),
{
    let cs = chars_of(did);
    let (len, at) = utf8_scan(&cs, 12);
    if len > 20 {
        let k1 = at.unwrap();
        let (_, at2) = utf8_scan(&cs, (len - 4) as usize);
        let k2 = at2.unwrap();
        proof {
            lemma_boundary_unique(did@, 12, k1 as int);
            lemma_boundary_unique(did@, (len - 4) as nat, k2 as int);
        }
        let mut r = chars_range(&cs, 0, k1);
        push_all(&mut r, "...");
        let tail = chars_range(&cs, k2, cs.len());
        push_all(&mut r, tail.as_str());
        assert(cs@.subrange(0, k1 as int) =~= cs@.take(k1 as int));
        assert(cs@.subrange(k2 as int, cs@.len() as int) =~= cs@.skip(k2 as int));
        r
    } else {
        did.to_string()
    }
}

/// How long ago `ts` was at `now`, in the largest whole unit: seconds under
/// a minute, then minutes, hours, and days. A time in the future is "0s".
pub open spec fn ago_text(now: u64, ts: u64) -> Seq<char> {
    let d: int = if now >= ts { now - ts } else { 0 };
    if d < 60 {
        decimal(d as nat) + "s"@
    } else if d < 3600 {
        decimal((d / 60) as nat) + "m"@
    } else if d < 86400 {
        decimal((d / 3600) as nat) + "h"@
    } else {
        decimal((d / 86400) as nat) + "d"@
    }
}

pub fn time_ago_at(now: u64, ts: u64) -> (s: String)
    ensures
        s@ == ago_text(now, ts),
{
    let d = now.saturating_sub(ts);
    let (n, unit) = if d < 60 {
        (d, "s")
    } else if d < 3600 {
        (d / 60, "m")
    } else if d < 86400 {
        (d / 3600, "h")
    } else {
        (d / 86400, "d")
    };
    let mut s = decimal_string(n as u128);
    push_all(&mut s, unit);
    s
}

/// How long ago `ts` was, by the system clock (a clock that cannot be read
/// counts as the epoch).
pub fn time_ago(ts: u64) -> (s: String)
    ensures
        exists|now: u64| s@ == ago_text(now, ts),
{
    let now = match unix_time_now() {
        Ok(t) => t,
        Err(_) => 0,
    };
    time_ago_at(now, ts)
}

/// A feed event as the dashboard lists it.
pub struct FeedEventView {
    pub author_short: String,
    pub kind_label: String,
    pub time_ago: String,
    pub preview: String,
}

/// A line of the dashboard's system log.
pub struct LogEntry {
    pub timestamp: String,
    pub level: String,
    pub message: String,
}

/// A token balance as a partial page shows it.
pub struct TokenBalanceView {
    pub label: String,
    pub balance: String,
}

/// A bounty as the dashboard lists it.
pub struct BountyView {
    pub id: String,
    pub title: String,
    pub state: String,
    pub state_class: String,
    pub reward: String,
    pub time_ago: String,
}

/// A token card of the tokens page.
pub struct TokenCardView {
    pub label: String,
    pub balance: String,
    pub staked: String,
    pub decay_epoch: String,
    pub balance_u128: u128,
}

pub struct TokenBalancesPartial {
    pub balances: Vec<TokenBalanceView>,
}

pub struct BountyListPartial {
    pub bounties: Vec<BountyView>,
}

pub struct FeedEventPartial {
    pub event: FeedEventView,
}

pub struct FeedEventsPartial {
    pub events: Vec<FeedEventView>,
}

pub struct MeshPeersPartial {
    pub peers: Vec<String>,
}

/// The fields of the status bar every full page shows.
pub struct DashboardTemplate {
    pub page: String,
    pub online: bool,
    pub node_id: String,
    pub latency: String,
    pub uptime: String,
    pub load: String,
    pub peer_count: usize,
    pub agent_count: usize,
    pub total_events: usize,
    pub active_bounties: usize,
    pub total_compute: String,
    pub connected_peers: usize,
    pub recent_events: Vec<FeedEventView>,
    pub system_logs: Vec<LogEntry>,
    pub has_mesh_data: bool,
    pub graph_data: String,
}

pub struct FeedTemplate {
    pub page: String,
    pub online: bool,
    pub node_id: String,
    pub latency: String,
    pub uptime: String,
    pub load: String,
    pub peer_count: usize,
    pub agent_count: usize,
    pub total_events: usize,
    pub bounty_events: usize,
    pub training_events: usize,
    pub post_events: usize,
}

pub struct BountiesTemplate {
    pub page: String,
    pub online: bool,
    pub node_id: String,
    pub latency: String,
    pub uptime: String,
    pub load: String,
    pub peer_count: usize,
    pub agent_count: usize,
    pub total_bounties: usize,
}

pub struct TokensTemplate {
    pub page: String,
    pub online: bool,
    pub node_id: String,
    pub latency: String,
    pub uptime: String,
    pub load: String,
    pub peer_count: usize,
    pub agent_count: usize,
    pub balances: Vec<TokenCardView>,
    pub activity_level: String,
    pub decay_rate: String,
}

pub struct AnalyticsTemplate {
    pub page: String,
    pub online: bool,
    pub node_id: String,
    pub latency: String,
    pub uptime: String,
    pub load: String,
    pub peer_count: usize,
    pub agent_count: usize,
    pub activity_chart_data: String,
    pub bounty_chart_data: String,
    pub token_chart_data: String,
    pub kind_chart_data: String,
}

pub struct MeshTemplate {
    pub page: String,
    pub online: bool,
    pub node_id: String,
    pub latency: String,
    pub uptime: String,
    pub load: String,
    pub peer_count: usize,
    pub agent_count: usize,
    pub local_peer_id: String,
    pub topic_count: usize,
    pub listeners: Vec<String>,
    pub topics: Vec<String>,
}

pub struct AgentsTemplate {
    pub page: String,
    pub online: bool,
    pub node_id: String,
    pub latency: String,
    pub uptime: String,
    pub load: String,
    pub peer_count: usize,
    pub agent_count: usize,
    pub has_agent: bool,
    pub agent_did: String,
    pub reputation_grade: String,
    pub stake_score: String,
    pub attest_score: String,
    pub activity_score: String,
    pub verify_score: String,
    pub tenure_score: String,
    pub token_balances: Vec<TokenBalanceView>,
    pub agent_events: Vec<FeedEventView>,
    pub agent_bounties: Vec<BountyView>,
}

/// The filter of the bounty list partial.
pub struct BountyFilter {
    pub state: Option<String>,
    pub limit: Option<usize>,
}

/// The filter of the feed page.
pub struct FeedFilter {
    pub kind: Option<String>,
    pub author: Option<String>,
    pub mine: Option<String>,
}

/// The agent the agents page shows.
pub struct AgentQuery {
    pub did: Option<String>,
}

/// The form that posts a feed event.
pub struct FeedPostForm {
    pub kind: String,
    pub content: String,
    pub tags: String,
}

/// The form that creates a bounty. Deadlines are in hours.
pub struct BountyCreateForm {
    pub title: String,
    pub description: String,
    pub reward: u64,
    pub token: String,
    pub claim_deadline: u64,
    pub work_deadline: u64,
}

/// Whether a view shows a stored bounty, `ago` being how long ago it was created.
pub open spec fn bounty_shown(v: BountyView, b: BountyData, ago: Seq<char>) -> bool {
    &&& v.id@ == b.id@
    &&& v.title@ == (if b.title@.len() == 0 { truncated_did(b.id@) } else { b.title@ })
    &&& v.state@ == b.state@
    &&& v.state_class@ == str_lowercase(b.state@)
    &&& v.reward@ == decimal(b.reward_amount as nat) + " nC"@
    &&& v.time_ago@ == ago
}

/// The view of a stored bounty at time `now`.
pub fn bounty_view(b: &BountyData, now: u64) -> (v: BountyView)
    requires
        b.title@.len() == 0 ==> truncatable(b.id@) && utf8_len(b.id@) <= usize::MAX,
    ensures
        bounty_shown(v, *b, ago_text(now, b.created_at)),
{
    let title = if b.title.as_str().is_empty() { truncate_did(b.id.as_str()) } else { b.title.clone() };
    let mut reward = decimal_string(b.reward_amount as u128);
    push_all(&mut reward, " nC");
    BountyView {
        id: b.id.clone(),
        title,
        state: b.state.clone(),
        state_class: to_lowercase(b.state.as_str()),
        reward,
        time_ago: time_ago_at(now, b.created_at),
    }
}

/// Whether the bounty list partial keeps a bounty: its state is exactly the filter.
pub open spec fn partial_keeps(state: Option<Seq<char>>, b: BountyData) -> bool {
    match state {
        None => true,
        Some(s) => b.state@ == s,
    }
}

/// The bounties the partial keeps, in order.
pub open spec fn partial_kept(all: Seq<BountyData>, state: Option<Seq<char>>) -> Seq<BountyData>
    decreases all.len(),
{
    if all.len() == 0 {
        Seq::empty()
    } else if partial_keeps(state, all.last()) {
        partial_kept(all.drop_last(), state).push(all.last())
    } else {
        partial_kept(all.drop_last(), state)
    }
}

/// Every bounty's id can be shortened where a view needs it.
pub open spec fn ids_displayable(all: Seq<BountyData>) -> bool {
    forall|i: int| 0 <= i < all.len() ==> (#[trigger] all[i]).title@.len() == 0 ==> truncatable(all[i].id@)
        && utf8_len(all[i].id@) <= usize::MAX
}

/// The bounty partial keeps, in order, exactly the bounties whose stored
/// state is the one asked for, or every bounty when none is asked for.
pub proof fn law_partial_state_filter(all: Seq<BountyData>, state: Option<Seq<char>>)
    ensures
        partial_kept(all, state) == all.filter(|b: BountyData| state is None || b.state@ == state->Some_0),
    decreases all.len(),
{
    reveal(Seq::filter);
    if all.len() > 0 {
        law_partial_state_filter(all.drop_last(), state);
    }
}

/// The state filter of a partial's query.
pub open spec fn state_filter(f: BountyFilter) -> Option<Seq<char>> {
    match f.state {
        Some(s) => Some(s@),
        None => None,
    }
}

/// How many bounties a partial shows: the limit given, or 20.
pub open spec fn limit_of(f: BountyFilter) -> nat {
    match f.limit {
        Some(n) => n as nat,
        None => 20,
    }
}

/// The bounty list partial at time `now`: at most `limit` (20 when not
/// given) bounties in the state asked for.
pub fn bounty_list_views(all: &Vec<BountyData>, filter: &BountyFilter, now: u64) -> (r: Vec<BountyView>)
    requires
        ids_displayable(all@),
    ensures
        ({
            let chosen = first_n(
                partial_kept(all@, state_filter(*filter)),
                limit_of(*filter),
            );
            &&& r@.len() == chosen.len()
            &&& forall|i: int| 0 <= i < r@.len() ==> bounty_shown(#[trigger] r@[i], chosen[i], ago_text(now, chosen[i].created_at))
        }),
{
    let limit: usize = match filter.limit {
        Some(n) => n,
        None => 20,
    };
    let ghost sf: Option<Seq<char>> = state_filter(*filter);
    let mut r: Vec<BountyView> = Vec::new();
    let mut i: usize = 0;
    while i < all.len()
        invariant
            i <= all@.len(),
            ids_displayable(all@),
            sf == state_filter(*filter),
            limit as nat == limit_of(*filter),
            r@.len() == first_n(partial_kept(all@.take(i as int), sf), limit as nat).len(),
            forall|k: int| 0 <= k < r@.len() ==> bounty_shown(#[trigger] r@[k], first_n(partial_kept(all@.take(i as int), sf), limit as nat)[k], ago_text(now, first_n(partial_kept(all@.take(i as int), sf), limit as nat)[k].created_at)),
        decreases all.len() - i,
    {
        let b = &all[i];
        let ghost before = partial_kept(all@.take(i as int), sf);
        proof {
            assert(all@.take(i as int + 1).drop_last() =~= all@.take(i as int));
            assert(all@.take(i as int + 1).last() == all@[i as int]);
        }
        let keep = match &filter.state {
            None => true,
            Some(s) => str_eq(b.state.as_str(), s.as_str()),
        };
        if keep && r.len() < limit {
            proof {
                assert(all@[i as int].title@.len() == 0 ==> truncatable(all@[i as int].id@));
            }
            r.push(bounty_view(b, now));
            proof {
                let after = before.push(*b);
                assert(partial_kept(all@.take(i as int + 1), sf) == after);
                assert(first_n(before, limit as nat) == before);
                assert(first_n(after, limit as nat) == after);
            }
        } else {
            proof {
                if keep {
                    let after = before.push(*b);
                    assert(partial_kept(all@.take(i as int + 1), sf) == after);
                    assert(first_n(after, limit as nat) =~= first_n(before, limit as nat));
                } else {
                    assert(partial_kept(all@.take(i as int + 1), sf) == before);
                }
            }
        }
        i = i + 1;
    }
    proof {
        assert(all@.take(all@.len() as int) =~= all@);
    }
    r
}

/// The four bytes of `t` from the most significant, as `u64::to_be_bytes`
/// gives them, cut to the first four.
pub open spec fn high_bytes(t: u64) -> Seq<u8> {
    seq![(t / 0x100000000000000) as u8, ((t / 0x1000000000000) % 256) as u8, ((t / 0x10000000000) % 256) as u8, ((t / 0x100000000) % 256) as u8]
}

/// The record of a bounty created from the dashboard form by `did` at `now`:
/// its id is `bnty_` and the hex of the four high bytes of `now`, it pays in
/// compute tokens, and its review closes 72 hours after its work deadline.
pub open spec fn form_record(d: BountyData, f: BountyCreateForm, did: Seq<char>, now: u64) -> bool {
    &&& d.id@ == "bnty_"@ + hex_of(high_bytes(now))
    &&& d.state@ == "Open"@
    &&& d.requester_did@ == did
    &&& d.provider_did is None
    &&& d.reward_amount == f.reward
    &&& d.reward_token_type == 1
    &&& d.deadline == now + f.work_deadline * 3600
    &&& d.created_at == now
    &&& d.escrow_deposited == f.reward
    &&& d.title@ == f.title@
    &&& d.description@ == f.description@
    &&& d.claim_deadline == now + f.claim_deadline * 3600
    &&& d.work_deadline == now + f.work_deadline * 3600
    &&& d.review_deadline == now + (f.work_deadline + 72) * 3600
    &&& d.artifact_hash is None
    &&& d.bond is None
}

/// The bounty a dashboard form creates.
pub fn bounty_from_form(f: &BountyCreateForm, did: &str, now: u64) -> (d: BountyData)
    requires
        now + f.claim_deadline * 3600 <= u64::MAX,
        now + (f.work_deadline + 72) * 3600 <= u64::MAX,
    ensures
        form_record(d, *f, did@, now),
{
    let mut head: Vec<u8> = Vec::new();
    head.push((now / 0x100000000000000) as u8);
    head.push(((now / 0x1000000000000) % 256) as u8);
    head.push(((now / 0x10000000000) % 256) as u8);
    head.push(((now / 0x100000000) % 256) as u8);
    assert(head@ =~= high_bytes(now));
    let id = concat("bnty_", bytes_to_hex(head.as_slice()).as_str());
    let work = now + f.work_deadline * 3600;
    BountyData {
        id,
        state: "Open".to_string(),
        requester_did: did.to_string(),
        provider_did: None,
        reward_amount: f.reward,
        reward_token_type: 1,
        deadline: work,
        created_at: now,
        escrow_deposited: f.reward,
        title: f.title.clone(),
        description: f.description.clone(),
        claim_deadline: now + f.claim_deadline * 3600,
        work_deadline: work,
        review_deadline: now + (f.work_deadline + 72) * 3600,
        artifact_hash: None,
        bond: None,
    }
}


// ---------------------------------------------------------------------------
// Page data
// ---------------------------------------------------------------------------

/// The result of `String::from_utf8_lossy` on these bytes.
pub uninterp spec fn lossy_text(bytes: Seq<u8>) -> Seq<char>;

/// Decodes bytes as UTF-8, replacing each invalid sequence by U+FFFD
/// (`String::from_utf8_lossy`). Valid UTF-8 decodes to its text; the
/// replacement of invalid sequences is left named.
#[verifier::external_body]
fn utf8_lossy(bytes: &[u8]) -> (s: String)
    ensures
        s@ == lossy_text(bytes@),
        valid_utf8(bytes@) ==> s@ == decode_utf8(bytes@),
{
    String::from_utf8_lossy(bytes).into_owned()
}

/// Whether a view shows a stored event at time `now`.
pub open spec fn event_shown(v: FeedEventView, e: StoredEvent, now: u64) -> bool {
    &&& v.author_short@ == truncated_did(e.agent_did@)
    &&& v.kind_label@ == kind_label_text(e.kind)
    &&& v.time_ago@ == ago_text(now, e.timestamp)
    &&& v.preview@ == prefix(lossy_text(e.payload@), 80)
}

/// The view of a stored event at time `now`.
pub fn event_view(e: &StoredEvent, now: u64) -> (v: FeedEventView)
    requires
        truncatable(e.agent_did@),
        utf8_len(e.agent_did@) <= usize::MAX,
    ensures
        event_shown(v, *e, now),
{
    let text = utf8_lossy(e.payload.as_slice());
    FeedEventView {
        author_short: truncate_did(e.agent_did.as_str()),
        kind_label: kind_label(e.kind),
        time_ago: time_ago_at(now, e.timestamp),
        preview: take_chars(text.as_str(), 80),
    }
}

/// Every event's author can be shortened.
pub open spec fn authors_displayable(events: Seq<StoredEvent>) -> bool {
    forall|i: int| 0 <= i < events.len() ==> truncatable((#[trigger] events[i]).agent_did@) && utf8_len(
        events[i].agent_did@,
    ) <= usize::MAX
}

/// The newest `n` events, newest first.
pub open spec fn newest(events: Seq<StoredEvent>, n: nat) -> Seq<StoredEvent> {
    first_n(events.reverse(), n)
}

/// The views of the newest 20 events, newest first, at time `now`.
pub fn recent_event_views(events: &Vec<StoredEvent>, now: u64) -> (r: Vec<FeedEventView>)
    requires
        authors_displayable(events@),
    ensures
        r@.len() == newest(events@, 20).len(),
        forall|i: int| 0 <= i < r@.len() ==> event_shown(#[trigger] r@[i], newest(events@, 20)[i], now),
{
    let mut r: Vec<FeedEventView> = Vec::new();
    let n = events.len();
    let take: usize = if n < 20 { n } else { 20 };
    let mut i: usize = 0;
    while i < take
        invariant
            n == events@.len(),
            take == (if n < 20 { n } else { 20 }),
            i <= take,
            authors_displayable(events@),
            r@.len() == i,
            forall|k: int| 0 <= k < i ==> event_shown(#[trigger] r@[k], events@[n - 1 - k], now),
        decreases take - i,
    {
        let e = &events[n - 1 - i];
        assert(truncatable(events@[n - 1 - i as int].agent_did@));
        r.push(event_view(e, now));
        i = i + 1;
    }
    proof {
        assert forall|k: int| 0 <= k < r@.len() implies newest(events@, 20)[k] == events@[n - 1 - k] by {
            if 20 < n {
                assert(newest(events@, 20) == events@.reverse().take(20));
            }
        }
    }
    r
}

/// How many bounties are still active: neither paid nor cancelled.
pub open spec fn active_count(all: Seq<BountyData>) -> nat
    decreases all.len(),
{
    if all.len() == 0 {
        0
    } else {
        active_count(all.drop_last()) + if all.last().state@ != "Paid"@ && all.last().state@ != "Cancelled"@ { 1nat } else { 0nat }
    }
}

pub fn active_bounties(all: &Vec<BountyData>) -> (n: usize)
    ensures
        n == active_count(all@),
{
    let mut n: usize = 0;
    let mut i: usize = 0;
    while i < all.len()
        invariant
            i <= all@.len(),
            n == active_count(all@.take(i as int)),
            n <= i,
        decreases all.len() - i,
    {
        assert(all@.take(i as int + 1).drop_last() =~= all@.take(i as int));
        assert(all@.take(i as int + 1).last() == all@[i as int]);
        let s = all[i].state.as_str();
        if !str_eq(s, "Paid") && !str_eq(s, "Cancelled") {
            n = n + 1;
        }
        i = i + 1;
    }
    assert(all@.take(all@.len() as int) =~= all@);
    n
}

/// The day an event falls on, counting back from `now`: 0 for the last 24
/// hours.
pub open spec fn days_ago(now: u64, ts: u64) -> int {
    (if now >= ts { now - ts } else { 0 }) / 86400
}

/// How many of the events fell on the day `d` days ago.
pub open spec fn on_day(events: Seq<StoredEvent>, now: u64, d: int) -> nat
    decreases events.len(),
{
    if events.len() == 0 {
        0
    } else {
        on_day(events.drop_last(), now, d) + if days_ago(now, events.last().timestamp) == d { 1nat } else { 0nat }
    }
}

/// The activity of the last seven days, oldest first: entry `6 - d` counts
/// the events of `d` days ago.
pub fn activity_histogram(events: &Vec<StoredEvent>, now: u64) -> (h: Vec<u64>)
    ensures
        h@.len() == 7,
        forall|i: int| 0 <= i < 7 ==> h@[i] == on_day(events@, now, 6 - i),
{
    let mut h: Vec<u64> = vec![0, 0, 0, 0, 0, 0, 0];
    let mut i: usize = 0;
    while i < events.len()
        invariant
            i <= events@.len(),
            h@.len() == 7,
            forall|k: int| 0 <= k < 7 ==> h@[k] == on_day(events@.take(i as int), now, 6 - k),
            forall|k: int| 0 <= k < 7 ==> h@[k] <= i,
        decreases events.len() - i,
    {
        assert(events@.take(i as int + 1).drop_last() =~= events@.take(i as int));
        assert(events@.take(i as int + 1).last() == events@[i as int]);
        let d = now.saturating_sub(events[i].timestamp) / 86400;
        if d < 7 {
            let k: usize = 6 - d as usize;
            let v = h[k];
            h.set(k, v + 1);
        }
        i = i + 1;
    }
    assert(events@.take(events@.len() as int) =~= events@);
    h
}

/// The state tallies of the bounty chart: open, claimed, completed (paid or
/// accepted), rejected.
pub open spec fn tally(all: Seq<BountyData>, names: Seq<Seq<char>>) -> nat
    decreases all.len(),
{
    if all.len() == 0 {
        0
    } else {
        tally(all.drop_last(), names) + if names.contains(all.last().state@) { 1nat } else { 0nat }
    }
}

pub fn bounty_tallies(all: &Vec<BountyData>) -> (t: (usize, usize, usize, usize))
    ensures
        t.0 == tally(all@, seq!["Open"@]),
        t.1 == tally(all@, seq!["Claimed"@]),
        t.2 == tally(all@, seq!["Paid"@, "Accepted"@]),
        t.3 == tally(all@, seq!["Rejected"@]),
{
    let (mut a, mut b, mut c, mut d): (usize, usize, usize, usize) = (0, 0, 0, 0);
    let mut i: usize = 0;
    while i < all.len()
        invariant
            i <= all@.len(),
            a == tally(all@.take(i as int), seq!["Open"@]) && a <= i,
            b == tally(all@.take(i as int), seq!["Claimed"@]) && b <= i,
            c == tally(all@.take(i as int), seq!["Paid"@, "Accepted"@]) && c <= i,
            d == tally(all@.take(i as int), seq!["Rejected"@]) && d <= i,
        decreases all.len() - i,
    {
        assert(all@.take(i as int + 1).drop_last() =~= all@.take(i as int));
        assert(all@.take(i as int + 1).last() == all@[i as int]);
        let s = all[i].state.as_str();
        let ghost sv = all@[i as int].state@;
        proof {
            assert(seq!["Open"@].contains(sv) <==> sv == "Open"@) by {
                if sv == "Open"@ { assert(seq!["Open"@][0] == sv); }
            }
            assert(seq!["Claimed"@].contains(sv) <==> sv == "Claimed"@) by {
                if sv == "Claimed"@ { assert(seq!["Claimed"@][0] == sv); }
            }
            assert(seq!["Paid"@, "Accepted"@].contains(sv) <==> (sv == "Paid"@ || sv == "Accepted"@)) by {
                if sv == "Paid"@ { assert(seq!["Paid"@, "Accepted"@][0] == sv); }
                if sv == "Accepted"@ { assert(seq!["Paid"@, "Accepted"@][1] == sv); }
            }
            assert(seq!["Rejected"@].contains(sv) <==> sv == "Rejected"@) by {
                if sv == "Rejected"@ { assert(seq!["Rejected"@][0] == sv); }
            }
        }
        if str_eq(s, "Open") {
            a = a + 1;
        }
        if str_eq(s, "Claimed") {
            b = b + 1;
        }
        if str_eq(s, "Paid") || str_eq(s, "Accepted") {
            c = c + 1;
        }
        if str_eq(s, "Rejected") {
            d = d + 1;
        }
        i = i + 1;
    }
    assert(all@.take(all@.len() as int) =~= all@);
    (a, b, c, d)
}

/// The category of the kind chart a feed event kind falls in.
pub open spec fn category_text(kind: u16) -> Seq<char> {
    if kind <= 99 { "System"@ }
    else if 1000 <= kind <= 1999 { "Bounty"@ }
    else if 2000 <= kind <= 2999 { "Training"@ }
    else if 3000 <= kind <= 3999 { "Attestation"@ }
    else if 4000 <= kind <= 4999 { "Inference"@ }
    else if 5000 <= kind <= 5999 { "Governance"@ }
    else if 9000 <= kind <= 9999 { "Custom"@ }
    else { "Unknown"@ }
}

pub fn kind_category(kind: u16) -> (s: &'static str)
    ensures
        s@ == category_text(kind),
{
    if kind <= 99 { "System" }
    else if 1000 <= kind && kind <= 1999 { "Bounty" }
    else if 2000 <= kind && kind <= 2999 { "Training" }
    else if 3000 <= kind && kind <= 3999 { "Attestation" }
    else if 4000 <= kind && kind <= 4999 { "Inference" }
    else if 5000 <= kind && kind <= 5999 { "Governance" }
    else if 9000 <= kind && kind <= 9999 { "Custom" }
    else { "Unknown" }
}

/// The chart colour of a category.
pub open spec fn category_color_text(name: Seq<char>) -> Seq<char> {
    if name == "Bounty"@ { "#4A90D9"@ }
    else if name == "Training"@ { "#22D3EE"@ }
    else if name == "Attestation"@ { "#34D399"@ }
    else if name == "Inference"@ { "#A78BFA"@ }
    else if name == "Governance"@ { "#FBBF24"@ }
    else if name == "Custom"@ { "#F87171"@ }
    else { "#5C6078"@ }
}

pub fn category_color(name: &str) -> (c: &'static str)
    ensures
        c@ == category_color_text(name@),
{
    if str_eq(name, "Bounty") { "#4A90D9" }
    else if str_eq(name, "Training") { "#22D3EE" }
    else if str_eq(name, "Attestation") { "#34D399" }
    else if str_eq(name, "Inference") { "#A78BFA" }
    else if str_eq(name, "Governance") { "#FBBF24" }
    else if str_eq(name, "Custom") { "#F87171" }
    else { "#5C6078" }
}

/// The reputation grade the agents page shows for an agent with `n` recent events.
pub open spec fn grade_text(n: usize) -> Seq<char> {
    if n <= 5 { "D"@ }
    else if n <= 20 { "C"@ }
    else if n <= 50 { "B"@ }
    else if n <= 100 { "B+"@ }
    else if n <= 500 { "A"@ }
    else { "A+"@ }
}

pub fn reputation_grade(n: usize) -> (g: &'static str)
    ensures
        g@ == grade_text(n),
{
    if n <= 5 { "D" }
    else if n <= 20 { "C" }
    else if n <= 50 { "B" }
    else if n <= 100 { "B+" }
    else if n <= 500 { "A" }
    else { "A+" }
}

/// Whether an agent is party to a bounty: its creator or its claimant.
pub open spec fn party_to(did: Seq<char>, b: BountyData) -> bool {
    b.requester_did@ == did || match b.provider_did { Some(p) => p@ == did, None => false }
}

/// The bounties an agent is party to, in order.
pub open spec fn agent_kept(all: Seq<BountyData>, did: Seq<char>) -> Seq<BountyData>
    decreases all.len(),
{
    if all.len() == 0 {
        Seq::empty()
    } else if party_to(did, all.last()) {
        agent_kept(all.drop_last(), did).push(all.last())
    } else {
        agent_kept(all.drop_last(), did)
    }
}

/// The bounties an agent is party to are, in order, exactly those it created
/// or claimed.
pub proof fn law_agent_bounties(all: Seq<BountyData>, did: Seq<char>)
    ensures
        agent_kept(all, did) == all.filter(
            |b: BountyData| b.requester_did@ == did || (b.provider_did is Some && b.provider_did->Some_0@ == did),
        ),
    decreases all.len(),
{
    reveal(Seq::filter);
    if all.len() > 0 {
        law_agent_bounties(all.drop_last(), did);
    }
}

/// The agents page's bounties: the first 20 the agent is party to, at time `now`.
pub fn agent_bounty_views(all: &Vec<BountyData>, did: &str, now: u64) -> (r: Vec<BountyView>)
    requires
        ids_displayable(all@),
    ensures
        r@.len() == first_n(agent_kept(all@, did@), 20).len(),
        forall|i: int| 0 <= i < r@.len() ==> bounty_shown(#[trigger] r@[i], first_n(agent_kept(all@, did@), 20)[i], ago_text(now, first_n(agent_kept(all@, did@), 20)[i].created_at)),
{
    let mut r: Vec<BountyView> = Vec::new();
    let mut i: usize = 0;
    while i < all.len()
        invariant
            i <= all@.len(),
            ids_displayable(all@),
            r@.len() == first_n(agent_kept(all@.take(i as int), did@), 20).len(),
            forall|k: int| 0 <= k < r@.len() ==> bounty_shown(#[trigger] r@[k], first_n(agent_kept(all@.take(i as int), did@), 20)[k], ago_text(now, first_n(agent_kept(all@.take(i as int), did@), 20)[k].created_at)),
        decreases all.len() - i,
    {
        let b = &all[i];
        let ghost before = agent_kept(all@.take(i as int), did@);
        proof {
            assert(all@.take(i as int + 1).drop_last() =~= all@.take(i as int));
            assert(all@.take(i as int + 1).last() == all@[i as int]);
        }
        let keep = str_eq(b.requester_did.as_str(), did) || match &b.provider_did {
            Some(p) => str_eq(p.as_str(), did),
            None => false,
        };
        if keep && r.len() < 20 {
            proof {
                assert(all@[i as int].title@.len() == 0 ==> truncatable(all@[i as int].id@));
            }
            r.push(bounty_view(b, now));
            proof {
                let after = before.push(*b);
                assert(agent_kept(all@.take(i as int + 1), did@) == after);
                assert(first_n(before, 20) == before);
                assert(first_n(after, 20) == after);
            }
        } else {
            proof {
                if keep {
                    let after = before.push(*b);
                    assert(agent_kept(all@.take(i as int + 1), did@) == after);
                    assert(first_n(after, 20) =~= first_n(before, 20));
                } else {
                    assert(agent_kept(all@.take(i as int + 1), did@) == before);
                }
            }
        }
        i = i + 1;
    }
    proof {
        assert(all@.take(all@.len() as int) =~= all@);
    }
    r
}


// ---------------------------------------------------------------------------
// Feed page
// ---------------------------------------------------------------------------

/// How many events have a kind in `lo..=hi`.
pub open spec fn kind_count(events: Seq<StoredEvent>, lo: u16, hi: u16) -> nat
    decreases events.len(),
{
    if events.len() == 0 {
        0
    } else {
        kind_count(events.drop_last(), lo, hi) + if lo <= events.last().kind <= hi { 1nat } else { 0nat }
    }
}

/// The feed page's tallies: bounty events (kinds 1000 to 1999), training
/// events (2000 to 2999) and posts (kind 9001).
pub fn feed_tallies(events: &Vec<StoredEvent>) -> (t: (usize, usize, usize))
    ensures
        t.0 == kind_count(events@, 1000, 1999),
        t.1 == kind_count(events@, 2000, 2999),
        t.2 == kind_count(events@, 9001, 9001),
{
    let (mut a, mut b, mut c): (usize, usize, usize) = (0, 0, 0);
    let mut i: usize = 0;
    while i < events.len()
        invariant
            i <= events@.len(),
            a == kind_count(events@.take(i as int), 1000, 1999) && a <= i,
            b == kind_count(events@.take(i as int), 2000, 2999) && b <= i,
            c == kind_count(events@.take(i as int), 9001, 9001) && c <= i,
        decreases events.len() - i,
    {
        assert(events@.take(i as int + 1).drop_last() =~= events@.take(i as int));
        assert(events@.take(i as int + 1).last() == events@[i as int]);
        let k = events[i].kind;
        if 1000 <= k && k <= 1999 {
            a = a + 1;
        }
        if 2000 <= k && k <= 2999 {
            b = b + 1;
        }
        if k == 9001 {
            c = c + 1;
        }
        i = i + 1;
    }
    assert(events@.take(events@.len() as int) =~= events@);
    (a, b, c)
}

/// The kind filter of the feed partial: the kind given, when it is a number
/// that fits 16 bits.
pub open spec fn partial_kind(kind: Option<Seq<char>>) -> Option<u16> {
    match kind {
        Some(k) => match parse_unsigned(k, 65535) {
            Some(n) => Some(n as u16),
            None => None,
        },
        None => None,
    }
}

/// Whether the feed partial shows an event. As written, an event passes the
/// author test when the author filter is absent or contained in its DID, OR
/// when the "mine" filter is absent or names its DID, so an author filter
/// has no effect unless "mine" is also set.
pub open spec fn partial_shows(kind: Option<u16>, author: Option<Seq<char>>, mine: Option<Seq<char>>, e: StoredEvent) -> bool {
    &&& match kind { Some(k) => e.kind == k, None => true }
    &&& (match author { Some(a) => has_infix(e.agent_did@, a), None => true }
        || match mine { Some(d) => e.agent_did@ == d, None => true })
}

/// The events the feed partial shows, newest first.
pub open spec fn partial_events(events: Seq<StoredEvent>, kind: Option<u16>, author: Option<Seq<char>>, mine: Option<Seq<char>>) -> Seq<StoredEvent>
    decreases events.len(),
{
    if events.len() == 0 {
        Seq::empty()
    } else {
        let rest = partial_events(events.drop_first(), kind, author, mine);
        if partial_shows(kind, author, mine, events[0]) { rest.push(events[0]) } else { rest }
    }
}

/// The view of an optional string.
pub open spec fn opt_text(o: Option<String>) -> Option<Seq<char>> {
    match o {
        Some(s) => Some(s@),
        None => None,
    }
}

/// The feed partial: the newest 50 events that pass its filters, at time
/// `now`; `mine` is the active agent's DID when the "mine" filter is set.
pub fn feed_partial_views(events: &Vec<StoredEvent>, filter: &FeedFilter, active_did: Option<&str>, now: u64) -> (r: Vec<FeedEventView>)
    requires
        authors_displayable(events@),
    ensures
        ({
            let mine: Option<Seq<char>> = if filter.mine is Some { match active_did { Some(d) => Some(d@), None => None } } else { None };
            let chosen = first_n(partial_events(events@, partial_kind(opt_text(filter.kind)), opt_text(filter.author), mine), 50);
            &&& r@.len() == chosen.len()
            &&& forall|i: int| 0 <= i < r@.len() ==> event_shown(#[trigger] r@[i], chosen[i], now)
        }),
{
    let kind: Option<u16> = match &filter.kind {
        Some(k) => match parse_unsigned_max(k.as_str(), 65535) {
            Some(n) => Some(n as u16),
            None => None,
        },
        None => None,
    };
    let mine: Option<&str> = if filter.mine.is_some() { active_did } else { None };
    let ghost kv = partial_kind(opt_text(filter.kind));
    let ghost av = opt_text(filter.author);
    let ghost mv: Option<Seq<char>> = match mine { Some(d) => Some(d@), None => None };
    assert(kind == kv);
    let mut r: Vec<FeedEventView> = Vec::new();
    let n = events.len();
    let mut i: usize = n;
    while i > 0
        invariant
            i <= n == events@.len(),
            authors_displayable(events@),
            kind == kv,
            av == opt_text(filter.author),
            mv == (match mine { Some(d) => Some(d@), None => None::<Seq<char>> }),
            r@.len() == first_n(partial_events(events@.skip(i as int), kv, av, mv), 50).len(),
            forall|k: int| 0 <= k < r@.len() ==> event_shown(#[trigger] r@[k], first_n(partial_events(events@.skip(i as int), kv, av, mv), 50)[k], now),
        decreases i,
    {
        let e = &events[i - 1];
        let ghost before = partial_events(events@.skip(i as int), kv, av, mv);
        proof {
            assert(events@.skip(i - 1).drop_first() =~= events@.skip(i as int));
            assert(events@.skip(i - 1)[0] == events@[i - 1]);
        }
        let kind_ok = match kind {
            Some(k) => e.kind == k,
            None => true,
        };
        let author_ok = match &filter.author {
            Some(a) => str_contains(e.agent_did.as_str(), a.as_str()),
            None => true,
        };
        let mine_ok = match mine {
            Some(d) => str_eq(e.agent_did.as_str(), d),
            None => true,
        };
        let keep = kind_ok && (author_ok || mine_ok);
        assert(keep == partial_shows(kv, av, mv, events@[i - 1]));
        if keep && r.len() < 50 {
            proof {
                assert(truncatable(events@[i - 1].agent_did@));
            }
            r.push(event_view(e, now));
            proof {
                let after = before.push(*e);
                assert(partial_events(events@.skip(i - 1), kv, av, mv) == after);
                assert(first_n(before, 50) == before);
                assert(first_n(after, 50) == after);
            }
        } else {
            proof {
                if keep {
                    let after = before.push(*e);
                    assert(partial_events(events@.skip(i - 1), kv, av, mv) == after);
                    assert(first_n(after, 50) =~= first_n(before, 50));
                } else {
                    assert(partial_events(events@.skip(i - 1), kv, av, mv) == before);
                }
            }
        }
        i = i - 1;
    }
    assert(events@.skip(0) =~= events@);
    r
}

/// The kind a posted form gives: its number, or 9001 (a post) when it is
/// not a number that fits 16 bits.
pub fn form_kind(kind: &str) -> (k: u16)
    ensures
        k == match parse_unsigned(kind@, 65535) { Some(n) => n as u16, None => 9001u16 },
{
    match parse_unsigned_max(kind, 65535) {
        Some(n) => n as u16,
        None => 9001,
    }
}

/// What posting the feed form by `did` at `now`, after its latest event
/// `latest`, stores and announces: the trimmed content must not be empty.
pub fn plan_form_post(form: &FeedPostForm, did: &str, latest: u64, now: u64) -> (r: Result<(StoredEvent, FeedEventUpdate), String>)
    requires
        latest < u64::MAX,
        truncatable(did@),
        utf8_len(did@) <= usize::MAX,
    ensures
        trim(form.content@).len() == 0 ==> r is Err && r->Err_0@
            == "<div style='color:var(--accent-red);font-size:12px;'>Content cannot be empty.</div>"@,
        trim(form.content@).len() > 0 ==> r is Ok && {
            let (e, u) = r->Ok_0;
            let k = match parse_unsigned(form.kind@, 65535) { Some(n) => n as u16, None => 9001u16 };
            &&& e.kind == k
            &&& e.timestamp == now
            &&& e.agent_did@ == did@
            &&& e.sequence == latest + 1
            &&& e.prev_hash@ == Seq::new(32, |i: int| 0u8)
            &&& e.payload@ == vstd::utf8::encode_utf8(trim(form.content@))
            &&& e.signature@.len() == 0
            &&& u.kind == k
            &&& u.author_did@ == did@
            &&& u.author_short@ == truncated_did(did@)
            &&& u.kind_label@ == kind_label_text(k)
            &&& u.preview@ == prefix(trim(form.content@), 80)
            &&& u.time_ago@ == "now"@
        },
{
    let kind = form_kind(form.kind.as_str());
    let cs = chars_of(form.content.as_str());
    let t = crate::text::trim_chars(cs.as_slice());
    let content = crate::text::string_from(t.as_slice());
    if content.as_str().is_empty() {
        return Err("<div style='color:var(--accent-red);font-size:12px;'>Content cannot be empty.</div>".to_string());
    }
    let seq = crate::feed::next_sequence(latest);
    let mut zeros: Vec<u8> = Vec::new();
    let mut i: usize = 0;
    while i < 32
        invariant
            i <= 32,
            zeros@ == Seq::new(i as nat, |j: int| 0u8),
        decreases 32 - i,
    {
        zeros.push(0u8);
        assert(zeros@ =~= Seq::new(i as nat + 1, |j: int| 0u8));
        i = i + 1;
    }
    let e = StoredEvent {
        kind,
        timestamp: now,
        agent_did: did.to_string(),
        sequence: seq,
        prev_hash: zeros,
        payload: content.as_str().as_bytes_vec(),
        signature: Vec::new(),
    };
    let u = FeedEventUpdate {
        kind,
        author_did: did.to_string(),
        author_short: truncate_did(did),
        kind_label: kind_label(kind),
        preview: take_chars(content.as_str(), 80),
        time_ago: "now".to_string(),
    };
    Ok((e, u))
}

} // verus!
