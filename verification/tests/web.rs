use agnetd::bounty::BountyData;
use agnetd::web::{
    bounty_from_form, bounty_list_views, bounty_view, kind_label, time_ago_at, truncate_did, BountyCreateForm,
    BountyFilter,
};

fn bounty(id: &str, title: &str, state: &str) -> BountyData {
    BountyData {
        id: id.to_string(),
        state: state.to_string(),
        requester_did: "did:c".to_string(),
        provider_did: None,
        reward_amount: 500,
        reward_token_type: 1,
        deadline: 0,
        created_at: 1000,
        escrow_deposited: 500,
        title: title.to_string(),
        description: String::new(),
        claim_deadline: 0,
        work_deadline: 0,
        review_deadline: 0,
        artifact_hash: None,
        bond: None,
    }
}

#[test]
fn kind_labels() {
    assert_eq!(kind_label(0), "METADATA");
    assert_eq!(kind_label(1003), "BOUNTY_REVIEWED");
    assert_eq!(kind_label(9002), "REPLY");
    assert_eq!(kind_label(7), "KIND_7");
}

#[test]
fn dids_are_shortened_past_twenty_bytes() {
    assert_eq!(truncate_did("did:neunode:0123456789abcdef"), "did:neunode:...cdef");
    assert_eq!(truncate_did("did:neunode:short"), "did:neunode:short");
}

#[test]
fn ages_in_largest_unit() {
    assert_eq!(time_ago_at(100, 100), "0s");
    assert_eq!(time_ago_at(159, 100), "59s");
    assert_eq!(time_ago_at(160, 100), "1m");
    assert_eq!(time_ago_at(100 + 3600, 100), "1h");
    assert_eq!(time_ago_at(100 + 2 * 86400, 100), "2d");
    assert_eq!(time_ago_at(5, 100), "0s");
}

#[test]
fn bounty_views() {
    let v = bounty_view(&bounty("bnty_0123456789abcdefXYZ", "", "UnderReview"), 1000 + 120);
    assert_eq!(v.title, "bnty_0123456...fXYZ");
    assert_eq!(v.state_class, "underreview");
    assert_eq!(v.reward, "500 nC");
    assert_eq!(v.time_ago, "2m");
    let all = vec![bounty("a", "A", "Open"), bounty("b", "B", "Paid"), bounty("c", "C", "Open")];
    let open = bounty_list_views(&all, &BountyFilter { state: Some("Open".to_string()), limit: None }, 1000);
    assert_eq!(open.len(), 2);
    assert_eq!(open[1].id, "c");
    let one = bounty_list_views(&all, &BountyFilter { state: None, limit: Some(1) }, 1000);
    assert_eq!(one.len(), 1);
    let lower = bounty_list_views(&all, &BountyFilter { state: Some("open".to_string()), limit: None }, 1000);
    assert_eq!(lower.len(), 0);
}

#[test]
fn form_bounties() {
    let f = BountyCreateForm {
        title: "T".to_string(),
        description: "D".to_string(),
        reward: 10,
        token: "compute".to_string(),
        claim_deadline: 72,
        work_deadline: 168,
    };
    let now: u64 = 0x0102030405060708;
    let d = bounty_from_form(&f, "did:c", now);
    assert_eq!(d.id, "bnty_01020304");
    assert_eq!(d.claim_deadline, now + 72 * 3600);
    assert_eq!(d.review_deadline, now + (168 + 72) * 3600);
    assert_eq!(d.reward_token_type, 1);
}

use agnetd::feed::StoredEvent;
use agnetd::web::{
    active_bounties, activity_histogram, agent_bounty_views, bounty_tallies, category_color, event_view,
    kind_category, recent_event_views, reputation_grade,
};

fn event(seq: u64, kind: u16, ts: u64, payload: &[u8]) -> StoredEvent {
    StoredEvent {
        kind,
        timestamp: ts,
        agent_did: "did:neunode:0123456789abcdef".to_string(),
        sequence: seq,
        prev_hash: vec![],
        payload: payload.to_vec(),
        signature: vec![],
    }
}

#[test]
fn event_views_and_recency() {
    let v = event_view(&event(1, 9001, 100, b"hi \xff"), 160);
    assert_eq!(v.author_short, "did:neunode:...cdef");
    assert_eq!(v.kind_label, "POST");
    assert_eq!(v.time_ago, "1m");
    assert_eq!(v.preview, "hi \u{FFFD}");
    let events: Vec<StoredEvent> = (0..25).map(|i| event(i, 0, 0, b"x")).collect();
    let r = recent_event_views(&events, 0);
    assert_eq!(r.len(), 20);
}

#[test]
fn analytics_counts() {
    let day = 86400;
    let now = 10 * day;
    let events = vec![event(1, 1, now, b""), event(2, 1, now - day, b""), event(3, 1, now - 6 * day - 5, b""), event(4, 1, now - 9 * day, b"")];
    assert_eq!(activity_histogram(&events, now), vec![1, 0, 0, 0, 0, 1, 1]);
    let all = vec![bounty("a", "A", "Open"), bounty("b", "B", "Paid"), bounty("c", "C", "Accepted"), bounty("d", "D", "Cancelled")];
    assert_eq!(bounty_tallies(&all), (1, 0, 2, 0));
    assert_eq!(active_bounties(&all), 2);
    assert_eq!(kind_category(50), "System");
    assert_eq!(kind_category(150), "Unknown");
    assert_eq!(kind_category(9500), "Custom");
    assert_eq!(category_color("Governance"), "#FBBF24");
    assert_eq!(category_color("System"), "#5C6078");
}

#[test]
fn agent_page() {
    assert_eq!(reputation_grade(5), "D");
    assert_eq!(reputation_grade(6), "C");
    assert_eq!(reputation_grade(101), "A");
    let mut mine = bounty("m", "M", "Claimed");
    mine.provider_did = Some("did:me".to_string());
    let all = vec![bounty("x", "X", "Open"), mine];
    let v = agent_bounty_views(&all, "did:me", 2000);
    assert_eq!(v.len(), 1);
    assert_eq!(v[0].id, "m");
    assert_eq!(agent_bounty_views(&all, "did:c", 2000).len(), 2);
}

use agnetd::web::{feed_partial_views, feed_tallies, form_kind, plan_form_post, FeedFilter, FeedPostForm};

fn authored(did: &str, kind: u16, ts: u64) -> StoredEvent {
    StoredEvent {
        kind,
        timestamp: ts,
        agent_did: did.to_string(),
        sequence: ts,
        prev_hash: vec![],
        payload: b"p".to_vec(),
        signature: vec![],
    }
}

#[test]
fn feed_page_tallies() {
    let events = vec![authored("d", 1000, 1), authored("d", 1999, 2), authored("d", 2500, 3), authored("d", 9001, 4), authored("d", 9002, 5)];
    assert_eq!(feed_tallies(&events), (2, 1, 1));
}

#[test]
fn feed_partial_filters() {
    let events = vec![authored("did:a", 1, 1), authored("did:b", 2, 2), authored("did:a", 2, 3)];
    let none = FeedFilter { kind: None, author: None, mine: None };
    let all = feed_partial_views(&events, &none, None, 10);
    assert_eq!(all.len(), 3);
    assert_eq!(all[0].kind_label, "KIND_2");
    let kind2 = FeedFilter { kind: Some("2".to_string()), author: None, mine: None };
    assert_eq!(feed_partial_views(&events, &kind2, None, 10).len(), 2);
    let bad_kind = FeedFilter { kind: Some("x".to_string()), author: None, mine: None };
    assert_eq!(feed_partial_views(&events, &bad_kind, None, 10).len(), 3);
    // An author filter alone does not narrow the list.
    let author = FeedFilter { kind: None, author: Some("did:a".to_string()), mine: None };
    assert_eq!(feed_partial_views(&events, &author, None, 10).len(), 3);
    let mine = FeedFilter { kind: None, author: Some("zzz".to_string()), mine: Some("1".to_string()) };
    assert_eq!(feed_partial_views(&events, &mine, Some("did:b"), 10).len(), 1);
}

#[test]
fn feed_form_posts() {
    assert_eq!(form_kind("1000"), 1000);
    assert_eq!(form_kind("post"), 9001);
    assert_eq!(form_kind("70000"), 9001);
    let form = FeedPostForm { kind: "9002".to_string(), content: "  hello  ".to_string(), tags: String::new() };
    let (e, u) = plan_form_post(&form, "did:a", 2, 50).ok().unwrap();
    assert_eq!(e.sequence, 3);
    assert_eq!(e.payload, b"hello".to_vec());
    assert_eq!(u.kind_label, "REPLY");
    assert_eq!(u.preview, "hello");
    let blank = FeedPostForm { kind: "1".to_string(), content: "   ".to_string(), tags: String::new() };
    assert_eq!(
        plan_form_post(&blank, "did:a", 0, 0).err().unwrap(),
        "<div style='color:var(--accent-red);font-size:12px;'>Content cannot be empty.</div>"
    );
}
