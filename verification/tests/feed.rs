use agnetd::api_error::ApiError;
use agnetd::feed::{
    content_text, default_limit, event_id, feed_list, feed_show, list_feed, next_sequence, parse_tag,
    plan_post, show_feed_event, FeedListQuery, PostFeedRequest, StoredEvent,
};
use agnetd::output::Output;

fn ev(seq: u64, kind: u16, payload: &[u8], sig: &[u8]) -> StoredEvent {
    StoredEvent {
        kind,
        timestamp: 1700000000 + seq,
        agent_did: "did:neunode:0xABC".to_string(),
        sequence: seq,
        prev_hash: vec![],
        payload: payload.to_vec(),
        signature: sig.to_vec(),
    }
}

#[test]
fn sequences_start_at_one() {
    assert_eq!(next_sequence(0), 1);
    assert_eq!(next_sequence(41), 42);
}

#[test]
fn tags_split_at_first_equals() {
    assert_eq!(parse_tag("env=prod"), ("env".to_string(), "prod".to_string()));
    assert_eq!(parse_tag("a=b=c"), ("a".to_string(), "b=c".to_string()));
    assert_eq!(parse_tag("flag"), ("flag".to_string(), "".to_string()));
    assert_eq!(parse_tag("=v"), ("".to_string(), "v".to_string()));
}

#[test]
fn event_ids_use_first_eight_did_bytes() {
    assert_eq!(event_id("did:neunode:abc", 7), "evt_6469643a6e65756e_7");
    assert_eq!(event_id("did", 1), "evt_646964_1");
}

#[test]
fn binary_payloads_are_marked() {
    assert_eq!(content_text(&b"hello".to_vec()), "hello");
    assert_eq!(content_text(&vec![0xff, 0xfe]), "(binary)");
}

#[test]
fn api_listing_filters_kind_and_limits() {
    let events = vec![ev(1, 9001, b"a", b"\x01"), ev(2, 1, b"b", b"\x02"), ev(3, 9001, b"c", b"\x03")];
    let q = FeedListQuery { kind: Some(9001), author: None, limit: default_limit() };
    let r = list_feed(&events, &q);
    assert_eq!(r.len(), 2);
    assert_eq!(r[1].content, "c");
    assert_eq!(r[1].signature, "03");
    let q1 = FeedListQuery { kind: None, author: None, limit: 1 };
    assert_eq!(list_feed(&events, &q1).len(), 1);
    assert_eq!(default_limit(), 50);
}

#[test]
fn cli_listing() {
    let events = vec![ev(1, 9001, b"a", b"\x01")];
    match &feed_list(None, 10, &events)[0] {
        Output::Table { headers, rows } => {
            assert_eq!(headers, &vec!["Seq", "Kind", "Timestamp", "Author"]);
            assert_eq!(rows[0], vec!["1", "9001", "1700000001", "did:neunode:0xABC"]);
        }
        _ => panic!("expected a table"),
    }
    assert!(matches!(&feed_list(Some(5), 10, &events)[0], Output::Status(m) if m == "No events found"));
}

#[test]
fn api_show_by_id_or_sequence() {
    let events = vec![ev(1, 9001, b"a", b""), ev(2, 9001, b"b", b"")];
    let id = event_id("did:neunode:0xABC", 2);
    assert_eq!(show_feed_event(&events, &id).ok().unwrap().content, "b");
    assert_eq!(show_feed_event(&events, "seq:1").ok().unwrap().sequence, 1);
    assert!(matches!(show_feed_event(&events, "seq:9"), Err(ApiError::NotFound(m)) if m == "event 'seq:9' not found"));
}

#[test]
fn cli_show_by_signature_or_sequence() {
    let events = vec![ev(1, 9001, b"first", b"\xde\xad"), ev(12, 9001, b"second", b"\xbe\xef")];
    match &feed_show("beef", &events)[0] {
        Output::Pairs(p) => assert_eq!(p[4].1, "second"),
        _ => panic!("expected pairs"),
    }
    // "seq:12" begins with "seq:1", so the event numbered 1 is found first.
    match &feed_show("seq:12", &events)[0] {
        Output::Pairs(p) => assert_eq!(p[0].1, "1"),
        _ => panic!("expected pairs"),
    }
    match &feed_show("seq:12", &vec![ev(12, 9001, b"second", b"\xbe\xef")])[0] {
        Output::Pairs(p) => assert_eq!(p[0].1, "12"),
        _ => panic!("expected pairs"),
    }
    match &feed_show("nope", &events)[0] {
        Output::Object(o) => assert_eq!(o[1], ("status".to_string(), "not_found".to_string())),
        _ => panic!("expected a not-found record"),
    }
}

#[test]
fn posting_plans_the_next_event() {
    let req = PostFeedRequest { kind: 9001, content: "hello world".to_string(), tags: None };
    let p = plan_post(&req, "did:neunode:0123456789abcdef", 4, 99).ok().unwrap();
    assert_eq!(p.stored.sequence, 5);
    assert_eq!(p.stored.prev_hash, vec![0u8; 32]);
    assert_eq!(p.stored.payload, b"hello world".to_vec());
    assert_eq!(p.response.topic, "feed/kind/9001");
    assert_eq!(p.response.event_id, event_id("did:neunode:0123456789abcdef", 5));
    assert_eq!(p.update.author_short, "did:neunode:012345");
    assert_eq!(p.update.time_ago, "now");
    let empty = PostFeedRequest { kind: 1, content: String::new(), tags: None };
    assert!(matches!(plan_post(&empty, "d", 0, 0), Err(ApiError::BadRequest(m)) if m == "content cannot be empty"));
}

#[test]
fn posted_event_shows_at_once() {
    let did = "did:neunode:0xABC";
    let mut events = vec![ev(1, 9001, b"first", b""), ev(2, 9001, b"second", b"")];
    let req = PostFeedRequest { kind: 9001, content: "third".to_string(), tags: None };
    let p = plan_post(&req, did, 2, 7).ok().unwrap();
    let id = p.response.event_id.clone();
    events.push(p.stored);
    let shown = show_feed_event(&events, &id).ok().unwrap();
    assert_eq!(shown.sequence, 3);
    assert_eq!(shown.content, "third");
    assert_eq!(shown.kind, 9001);
    assert_eq!(shown.author_did, did);
    assert_eq!(show_feed_event(&events, "seq:3").ok().unwrap().content, "third");
}
