//! The agent feed: each agent's chain of numbered events, how a new event is
//! numbered and named, and how stored events are listed and found.
use vstd::prelude::*;
use vstd::utf8::{decode_utf8, valid_utf8};
use crate::api_error::{ApiError, ApiErrorView};
use crate::output::{Output, OutputView, outputs_view, pairs_view, rows_view};
use crate::text::{
    bytes_to_hex, chars_of, concat, contains_chars, decimal, decimal_string, has_infix, has_prefix,
    hex_of, lemma_decimal_injective, prefix, push_all, push_decimal, str_eq, str_starts_with, string_from,
    take_chars, views,
};

verus! {

broadcast use vstd::string::group_string_axioms;

/// An event as the feed store holds it.
pub struct StoredEvent {
    pub kind: u16,
    pub timestamp: u64,
    pub agent_did: String,
    pub sequence: u64,
    pub prev_hash: Vec<u8>,
    pub payload: Vec<u8>,
    pub signature: Vec<u8>,
}

/// The sequence number of an agent's next event: one past its latest, so
/// the first event is number 1.
pub fn next_sequence(latest: u64) -> (n: u64)
    requires
        latest < u64::MAX,
    ensures
        n == latest + 1,
{
    if latest == 0 { 1 } else { latest + 1 }
}

/// A tag written `key=value`: the key is what comes before the first `=`,
/// the value what follows it (empty when there is no `=`).
pub open spec fn tag_of(t: Seq<char>) -> (Seq<char>, Seq<char>) {
    if exists|i: int| 0 <= i < t.len() && t[i] == '=' {
        let i = choose|i: int| 0 <= i < t.len() && t[i] == '=' && forall|j: int| 0 <= j < i ==> t[j] != '=';
        (t.take(i), t.skip(i + 1))
    } else {
        (t, Seq::empty())
    }
}

/// Splits a `key=value` tag.
pub fn parse_tag(t: &str) -> (r: (String, String))
    ensures
        (r.0@, r.1@) == tag_of(t@),
{
    let cs = chars_of(t);
    let mut i: usize = 0;
    while i < cs.len()
        invariant
            i <= cs.len(),
            cs@ == t@,
            forall|j: int| 0 <= j < i ==> t@[j] != '=',
        decreases cs.len() - i,
    {
        if cs[i] == '=' {
            let mut k: Vec<char> = Vec::new();
            let mut v: Vec<char> = Vec::new();
            let mut a: usize = 0;
            while a < i
                invariant
                    a <= i < cs.len(),
                    k@ == cs@.take(a as int),
                decreases i - a,
            {
                k.push(cs[a]);
                assert(cs@.take(a as int + 1) =~= cs@.take(a as int).push(cs@[a as int]));
                a = a + 1;
            }
            let mut b: usize = i + 1;
            while b < cs.len()
                invariant
                    i + 1 <= b <= cs.len(),
                    v@ == cs@.subrange(i as int + 1, b as int),
                decreases cs.len() - b,
            {
                v.push(cs[b]);
                assert(cs@.subrange(i as int + 1, b as int + 1) =~= cs@.subrange(i as int + 1, b as int).push(cs@[b as int]));
                b = b + 1;
            }
            proof {
                let w = choose|w: int| 0 <= w < t@.len() && t@[w] == '=' && forall|j: int| 0 <= j < w ==> t@[j] != '=';
                assert(0 <= i < t@.len() && t@[i as int] == '=' && forall|j: int| 0 <= j < i ==> t@[j] != '=');
                if w < i {
                    assert(t@[w] != '=');
                } else if w > i {
                    assert(t@[i as int] != '=');
                }
                assert(cs@.subrange(i as int + 1, cs@.len() as int) =~= t@.skip(i as int + 1));
            }
            return (string_from(k.as_slice()), string_from(v.as_slice()));
        }
        i = i + 1;
    }
    (t.to_string(), String::new())
}

/// Decodes UTF-8 text (`std::str::from_utf8`): the text when the bytes are
/// valid UTF-8, nothing otherwise.
#[verifier::external_body]
fn utf8_text(bytes: &[u8]) -> (r: Option<String>)
    ensures
        r is Some <==> valid_utf8(bytes@),
        r matches Some(s) ==> s@ == decode_utf8(bytes@),
{
    std::str::from_utf8(bytes).ok().map(|s| s.to_string())
}

/// The text of a payload, or `(binary)` when it is not UTF-8.
pub open spec fn payload_text(p: Seq<u8>) -> Seq<char> {
    if valid_utf8(p) { decode_utf8(p) } else { "(binary)"@ }
}

pub fn content_text(payload: &Vec<u8>) -> (s: String)
    ensures
        s@ == payload_text(payload@),
{
    match utf8_text(payload.as_slice()) {
        Some(s) => s,
        None => "(binary)".to_string(),
    }
}

/// The public id of an agent's event: `evt_`, the hex of the first (up to
/// eight) bytes of the agent's DID, `_`, and the sequence number.
pub open spec fn event_id_text(did: Seq<char>, sequence: u64) -> Seq<char> {
    let b = vstd::utf8::encode_utf8(did);
    let n = if b.len() < 8 { b.len() } else { 8 };
    "evt_"@ + hex_of(b.take(n as int)) + "_"@ + decimal(sequence as nat)
}

pub fn event_id(did: &str, sequence: u64) -> (s: String)
    ensures
        s@ == event_id_text(did@, sequence),
{
    let b = did.as_bytes();
    let n: usize = if b.len() < 8 { b.len() } else { 8 };
    let mut head: Vec<u8> = Vec::new();
    let mut i: usize = 0;
    while i < n
        invariant
            i <= n <= b@.len(),
            head@ == b@.take(i as int),
        decreases n - i,
    {
        head.push(b[i]);
        assert(b@.take(i as int + 1) =~= b@.take(i as int).push(b@[i as int]));
        i = i + 1;
    }
    let mut s = concat("evt_", bytes_to_hex(head.as_slice()).as_str());
    push_all(&mut s, "_");
    push_decimal(&mut s, sequence as u128);
    s
}

/// An event as the HTTP API shows it.
pub struct FeedEventResponse {
    pub sequence: u64,
    pub kind: u16,
    pub timestamp: u64,
    pub author_did: String,
    pub content: String,
    pub signature: String,
}

/// Whether a response shows a stored event.
pub open spec fn shows_event(r: FeedEventResponse, e: StoredEvent) -> bool {
    &&& r.sequence == e.sequence
    &&& r.kind == e.kind
    &&& r.timestamp == e.timestamp
    &&& r.author_did@ == e.agent_did@
    &&& r.content@ == payload_text(e.payload@)
    &&& r.signature@ == hex_of(e.signature@)
}

pub fn event_response(e: &StoredEvent) -> (r: FeedEventResponse)
    ensures
        shows_event(r, *e),
{
    FeedEventResponse {
        sequence: e.sequence,
        kind: e.kind,
        timestamp: e.timestamp,
        author_did: e.agent_did.clone(),
        content: content_text(&e.payload),
        signature: bytes_to_hex(e.signature.as_slice()),
    }
}

/// The filters of a feed listing.
pub struct FeedListQuery {
    pub kind: Option<u32>,
    pub author: Option<String>,
    pub limit: usize,
}

/// How many events a listing shows when the query gives no limit.
pub fn default_limit() -> (n: usize)
    ensures
        n == 50,
{
    50
}

/// Whether a listing with this kind filter keeps an event. A kind above
/// `u16::MAX` is compared by its low 16 bits.
pub open spec fn kind_keeps(kind: Option<u32>, e: StoredEvent) -> bool {
    match kind {
        None => true,
        Some(k) => e.kind == k as u16,
    }
}

/// The events a kind filter keeps, in order.
pub open spec fn kept_events(events: Seq<StoredEvent>, kind: Option<u32>) -> Seq<StoredEvent>
    decreases events.len(),
{
    if events.len() == 0 {
        Seq::empty()
    } else if kind_keeps(kind, events.last()) {
        kept_events(events.drop_last(), kind).push(events.last())
    } else {
        kept_events(events.drop_last(), kind)
    }
}

/// A kind filter keeps, in order, exactly the events of that kind (cut to
/// 16 bits); no filter keeps every event.
pub proof fn law_kind_filter(events: Seq<StoredEvent>, kind: Option<u32>)
    ensures
        kept_events(events, kind) == events.filter(
            |e: StoredEvent| kind is None || e.kind == kind->Some_0 as u16,
        ),
    decreases events.len(),
{
    reveal(Seq::filter);
    if events.len() > 0 {
        law_kind_filter(events.drop_last(), kind);
    }
}

/// The first `n` items of `s`, or all of them when there are fewer.
pub open spec fn first_n<T>(s: Seq<T>, n: nat) -> Seq<T> {
    if n >= s.len() { s } else { s.take(n as int) }
}

fn kind_keeps_exec(kind: Option<u32>, e: &StoredEvent) -> (b: bool)
    ensures
        b == kind_keeps(kind, *e),
{
    match kind {
        None => true,
        Some(k) => e.kind == (k as u16),
    }
}

/// The first `limit` events of the kind asked for.
fn select_events(events: &Vec<StoredEvent>, kind: Option<u32>, limit: usize) -> (r: Vec<usize>)
    ensures
        r@.len() == first_n(kept_events(events@, kind), limit as nat).len(),
        forall|i: int| 0 <= i < r@.len() ==> #[trigger] r@[i] < events@.len() && events@[r@[i] as int]
            == first_n(kept_events(events@, kind), limit as nat)[i],
{
    let mut r: Vec<usize> = Vec::new();
    let mut i: usize = 0;
    while i < events.len()
        invariant
            i <= events@.len(),
            r@.len() == first_n(kept_events(events@.take(i as int), kind), limit as nat).len(),
            forall|k: int| 0 <= k < r@.len() ==> #[trigger] r@[k] < events@.len() && events@[r@[k] as int]
                == first_n(kept_events(events@.take(i as int), kind), limit as nat)[k],
        decreases events.len() - i,
    {
        let ghost before = kept_events(events@.take(i as int), kind);
        proof {
            assert(events@.take(i as int + 1).drop_last() =~= events@.take(i as int));
            assert(events@.take(i as int + 1).last() == events@[i as int]);
        }
        let keep = kind_keeps_exec(kind, &events[i]);
        if keep && r.len() < limit {
            r.push(i);
            proof {
                let after = before.push(events@[i as int]);
                assert(kept_events(events@.take(i as int + 1), kind) == after);
                assert(first_n(before, limit as nat) == before);
                assert(first_n(after, limit as nat) == after);
            }
        } else {
            proof {
                if keep {
                    let after = before.push(events@[i as int]);
                    assert(kept_events(events@.take(i as int + 1), kind) == after);
                    assert(first_n(after, limit as nat) =~= first_n(before, limit as nat));
                } else {
                    assert(kept_events(events@.take(i as int + 1), kind) == before);
                }
            }
        }
        i = i + 1;
    }
    proof {
        assert(events@.take(events@.len() as int) =~= events@);
    }
    r
}

/// The HTTP listing of an agent's events.
pub fn list_feed(events: &Vec<StoredEvent>, q: &FeedListQuery) -> (r: Vec<FeedEventResponse>)
    ensures
        r@.len() == first_n(kept_events(events@, q.kind), q.limit as nat).len(),
        forall|i: int| 0 <= i < r@.len() ==> shows_event(#[trigger] r@[i], first_n(kept_events(events@, q.kind), q.limit as nat)[i]),
{
    let idx = select_events(events, q.kind, q.limit);
    let mut r: Vec<FeedEventResponse> = Vec::new();
    let mut i: usize = 0;
    while i < idx.len()
        invariant
            i <= idx@.len(),
            r@.len() == i,
            idx@.len() == first_n(kept_events(events@, q.kind), q.limit as nat).len(),
            forall|k: int| 0 <= k < idx@.len() ==> #[trigger] idx@[k] < events@.len() && events@[idx@[k] as int]
                == first_n(kept_events(events@, q.kind), q.limit as nat)[k],
            forall|k: int| 0 <= k < i ==> shows_event(#[trigger] r@[k], first_n(kept_events(events@, q.kind), q.limit as nat)[k]),
        decreases idx.len() - i,
    {
        let j = idx[i];
        r.push(event_response(&events[j]));
        i = i + 1;
    }
    r
}

/// The row the command-line listing shows for an event.
pub open spec fn event_row(e: StoredEvent) -> Seq<Seq<char>> {
    seq![decimal(e.sequence as nat), decimal(e.kind as nat), decimal(e.timestamp as nat), e.agent_did@]
}

/// What the command-line listing shows.
pub open spec fn feed_listing(events: Seq<StoredEvent>, kind: Option<u32>, limit: nat) -> Seq<OutputView> {
    let chosen = first_n(kept_events(events, kind), limit);
    if chosen.len() == 0 {
        seq![OutputView::Status("No events found"@)]
    } else {
        seq![OutputView::Table {
            headers: seq!["Seq"@, "Kind"@, "Timestamp"@, "Author"@],
            rows: chosen.map_values(|e: StoredEvent| event_row(e)),
        }]
    }
}

/// The command-line listing of an agent's events.
pub fn feed_list(kind: Option<u32>, limit: usize, events: &Vec<StoredEvent>) -> (out: Vec<Output>)
    ensures
        outputs_view(out@) == feed_listing(events@, kind, limit as nat),
{
    let idx = select_events(events, kind, limit);
    let ghost chosen = first_n(kept_events(events@, kind), limit as nat);
    let mut rows: Vec<Vec<String>> = Vec::new();
    let mut i: usize = 0;
    while i < idx.len()
        invariant
            i <= idx@.len(),
            idx@.len() == chosen.len(),
            chosen == first_n(kept_events(events@, kind), limit as nat),
            forall|k: int| 0 <= k < idx@.len() ==> #[trigger] idx@[k] < events@.len() && events@[idx@[k] as int] == chosen[k],
            rows_view(rows@) == chosen.take(i as int).map_values(|e: StoredEvent| event_row(e)),
        decreases idx.len() - i,
    {
        let e = &events[idx[i]];
        let mut row: Vec<String> = Vec::new();
        row.push(decimal_string(e.sequence as u128));
        row.push(decimal_string(e.kind as u128));
        row.push(decimal_string(e.timestamp as u128));
        row.push(e.agent_did.clone());
        let ghost old_rows = rows@;
        rows.push(row);
        proof {
            assert(views(row@) =~= event_row(chosen[i as int]));
            assert(rows_view(rows@) =~= rows_view(old_rows).push(views(row@)));
            assert(chosen.take(i as int + 1) =~= chosen.take(i as int).push(chosen[i as int]));
            assert(chosen.take(i as int + 1).map_values(|e: StoredEvent| event_row(e)) =~= chosen.take(i as int).map_values(
                |e: StoredEvent| event_row(e),
            ).push(event_row(chosen[i as int])));
        }
        i = i + 1;
    }
    assert(chosen.take(chosen.len() as int) =~= chosen);
    let mut out: Vec<Output> = Vec::new();
    if rows.len() == 0 {
        out.push(Output::Status("No events found".to_string()));
    } else {
        let mut headers: Vec<String> = Vec::new();
        headers.push("Seq".to_string());
        headers.push("Kind".to_string());
        headers.push("Timestamp".to_string());
        headers.push("Author".to_string());
        assert(views(headers@) =~= seq!["Seq"@, "Kind"@, "Timestamp"@, "Author"@]);
        out.push(Output::Table { headers, rows });
    }
    assert(outputs_view(out@) =~= feed_listing(events@, kind, limit as nat));
    out
}

/// Whether an HTTP lookup by `id` names this event: by its public id or as
/// `seq:` and its sequence number.
pub open spec fn api_names(id: Seq<char>, e: StoredEvent) -> bool {
    id == event_id_text(e.agent_did@, e.sequence) || id == "seq:"@ + decimal(e.sequence as nat)
}

/// The first event an HTTP lookup names, or "not found".
pub fn show_feed_event(events: &Vec<StoredEvent>, id: &str) -> (r: Result<FeedEventResponse, ApiError>)
    ensures
        match r {
            Ok(resp) => exists|i: int| 0 <= i < events@.len() && api_names(id@, #[trigger] events@[i])
                && shows_event(resp, events@[i]) && forall|j: int| 0 <= j < i ==> !api_names(id@, #[trigger] events@[j]),
            Err(e) => (forall|i: int| 0 <= i < events@.len() ==> !api_names(id@, #[trigger] events@[i]))
                && e@ == ApiErrorView::NotFound("event '"@ + id@ + "' not found"@),
        },
{
    let mut i: usize = 0;
    while i < events.len()
        invariant
            i <= events@.len(),
            forall|j: int| 0 <= j < i ==> !api_names(id@, #[trigger] events@[j]),
        decreases events.len() - i,
    {
        let e = &events[i];
        let a = event_id(e.agent_did.as_str(), e.sequence);
        let b = concat("seq:", decimal_string(e.sequence as u128).as_str());
        if str_eq(id, a.as_str()) || str_eq(id, b.as_str()) {
            let resp = event_response(e);
            assert(api_names(id@, events@[i as int]));
            return Ok(resp);
        }
        i = i + 1;
    }
    let mut m = concat("event '", id);
    push_all(&mut m, "' not found");
    Err(ApiError::NotFound(m))
}

proof fn lemma_suffix_eq(pre: Seq<char>, x: Seq<char>, y: Seq<char>)
    requires
        pre + x == pre + y,
    ensures
        x == y,
{
    assert((pre + x).skip(pre.len() as int) =~= x);
    assert((pre + y).skip(pre.len() as int) =~= y);
}

/// The lookup names of an event numbered `s` by agent `did` differ from
/// those of any other number by the same agent.
proof fn lemma_names_distinct(did: Seq<char>, s: u64, t: u64)
    requires
        s != t,
    ensures
        event_id_text(did, s) != event_id_text(did, t),
        event_id_text(did, s) != "seq:"@ + decimal(t as nat),
        "seq:"@ + decimal(s as nat) != "seq:"@ + decimal(t as nat),
{
    let b = vstd::utf8::encode_utf8(did);
    let n = if b.len() < 8 { b.len() } else { 8 };
    let pre = "evt_"@ + hex_of(b.take(n as int)) + "_"@;
    assert(event_id_text(did, s) == pre + decimal(s as nat));
    assert(event_id_text(did, t) == pre + decimal(t as nat));
    if event_id_text(did, s) == event_id_text(did, t) {
        lemma_suffix_eq(pre, decimal(s as nat), decimal(t as nat));
        lemma_decimal_injective(s as nat, t as nat);
    }
    if "seq:"@ + decimal(s as nat) == "seq:"@ + decimal(t as nat) {
        lemma_suffix_eq("seq:"@, decimal(s as nat), decimal(t as nat));
        lemma_decimal_injective(s as nat, t as nat);
    }
    reveal_strlit("evt_");
    reveal_strlit("seq:");
    assert(event_id_text(did, s)[0] == 'e');
    assert(("seq:"@ + decimal(t as nat))[0] == 's');
}

/// A posted event can be shown at once. Among an agent's events, all
/// numbered at most `latest`, with the event it posts next appended, the
/// new event's id and `seq:` with its number each name the new event and no
/// earlier one, and its content reads back as it was posted.
pub proof fn law_post_then_show(events: Seq<StoredEvent>, did: Seq<char>, latest: u64, posted: StoredEvent, content: Seq<char>)
    requires
        latest < u64::MAX,
        forall|i: int| 0 <= i < events.len() ==> (#[trigger] events[i]).agent_did@ == did
            && events[i].sequence <= latest,
        posted.agent_did@ == did,
        posted.sequence == latest + 1,
        posted.payload@ == vstd::utf8::encode_utf8(content),
    ensures
        ({
            let all = events.push(posted);
            let id = event_id_text(did, (latest + 1) as u64);
            let by_seq = "seq:"@ + decimal((latest + 1) as nat);
            &&& forall|i: int| 0 <= i < all.len() ==> (api_names(id, #[trigger] all[i]) <==> i == events.len())
            &&& forall|i: int| 0 <= i < all.len() ==> (api_names(by_seq, #[trigger] all[i]) <==> i == events.len())
        }),
        payload_text(posted.payload@) == content,
{
    let all = events.push(posted);
    let id = event_id_text(did, (latest + 1) as u64);
    let by_seq = "seq:"@ + decimal((latest + 1) as nat);
    assert forall|i: int| 0 <= i < all.len() implies (api_names(id, #[trigger] all[i]) <==> i == events.len())
        && (api_names(by_seq, all[i]) <==> i == events.len()) by {
        if i < events.len() {
            assert(all[i] == events[i]);
            lemma_names_distinct(did, (latest + 1) as u64, events[i].sequence);
            lemma_names_distinct(did, events[i].sequence, (latest + 1) as u64);
        } else {
            assert(all[i] == posted);
        }
    }
    vstd::utf8::encode_utf8_valid_utf8(content);
    vstd::utf8::encode_utf8_decode_utf8(content);
}

/// Whether a command-line lookup by `id` names this event: the hex of its
/// signature contains `id`, or `id` begins with `seq:` and its sequence number.
pub open spec fn cli_names(id: Seq<char>, e: StoredEvent) -> bool {
    has_infix(hex_of(e.signature@), id) || has_prefix(id, "seq:"@ + decimal(e.sequence as nat))
}

/// The labelled fields the command line shows for an event.
pub open spec fn event_pairs(e: StoredEvent) -> Seq<(Seq<char>, Seq<char>)> {
    seq![
        ("Sequence"@, decimal(e.sequence as nat)),
        ("Kind"@, decimal(e.kind as nat)),
        ("Timestamp"@, decimal(e.timestamp as nat)),
        ("Author"@, e.agent_did@),
        ("Content"@, payload_text(e.payload@)),
        ("Signature"@, hex_of(e.signature@)),
    ]
}

/// What the command line shows for a lookup by `id`.
pub open spec fn feed_show_result(events: Seq<StoredEvent>, id: Seq<char>) -> Seq<OutputView> {
    if exists|i: int| 0 <= i < events.len() && cli_names(id, #[trigger] events[i]) {
        let i = choose|i: int| 0 <= i < events.len() && cli_names(id, #[trigger] events[i]) && forall|j: int|
            0 <= j < i ==> !cli_names(id, #[trigger] events[j]);
        seq![OutputView::Pairs(event_pairs(events[i]))]
    } else {
        seq![OutputView::Object(seq![("event_id"@, id), ("status"@, "not_found"@)])]
    }
}

/// Shows the first event a command-line lookup by `id` names.
pub fn feed_show(id: &str, events: &Vec<StoredEvent>) -> (out: Vec<Output>)
    ensures
        outputs_view(out@) == feed_show_result(events@, id@),
{
    let mut i: usize = 0;
    while i < events.len()
        invariant
            i <= events@.len(),
            forall|j: int| 0 <= j < i ==> !cli_names(id@, #[trigger] events@[j]),
        decreases events.len() - i,
    {
        let e = &events[i];
        let sig = bytes_to_hex(e.signature.as_slice());
        let seq_tag = concat("seq:", decimal_string(e.sequence as u128).as_str());
        let hit = contains_chars(&chars_of(sig.as_str()), &chars_of(id)) || str_starts_with(id, seq_tag.as_str());
        if hit {
            assert(cli_names(id@, events@[i as int]));
            let mut p: Vec<(String, String)> = Vec::new();
            p.push(("Sequence".to_string(), decimal_string(e.sequence as u128)));
            p.push(("Kind".to_string(), decimal_string(e.kind as u128)));
            p.push(("Timestamp".to_string(), decimal_string(e.timestamp as u128)));
            p.push(("Author".to_string(), e.agent_did.clone()));
            p.push(("Content".to_string(), content_text(&e.payload)));
            p.push(("Signature".to_string(), sig));
            let mut out: Vec<Output> = Vec::new();
            out.push(Output::Pairs(p));
            proof {
                let w = choose|w: int| 0 <= w < events@.len() && cli_names(id@, #[trigger] events@[w]) && forall|j: int|
                    0 <= j < w ==> !cli_names(id@, #[trigger] events@[j]);
                assert(0 <= i < events@.len() && cli_names(id@, events@[i as int]) && forall|j: int|
                    0 <= j < i ==> !cli_names(id@, #[trigger] events@[j]));
                if w < i {
                    assert(!cli_names(id@, events@[w]));
                } else if w > i {
                    assert(!cli_names(id@, events@[i as int]));
                }
                assert(pairs_view(p@) =~= event_pairs(events@[i as int]));
                assert(outputs_view(out@) =~= feed_show_result(events@, id@));
            }
            return out;
        }
        i = i + 1;
    }
    let mut o: Vec<(String, String)> = Vec::new();
    o.push(("event_id".to_string(), id.to_string()));
    o.push(("status".to_string(), "not_found".to_string()));
    let mut out: Vec<Output> = Vec::new();
    out.push(Output::Object(o));
    proof {
        assert(pairs_view(o@) =~= seq![("event_id"@, id@), ("status"@, "not_found"@)]);
        assert(outputs_view(out@) =~= feed_show_result(events@, id@));
    }
    out
}

/// The body of a request that posts an event.
pub struct PostFeedRequest {
    pub kind: u32,
    pub content: String,
    pub tags: Option<Vec<String>>,
}

/// What posting an event answers.
pub struct PostFeedResponse {
    pub event_id: String,
    pub sequence: u64,
    pub kind: u16,
    pub topic: String,
}

/// The summary of a new event sent to the dashboard's live feed.
pub struct FeedEventUpdate {
    pub kind: u16,
    pub author_did: String,
    pub author_short: String,
    pub kind_label: String,
    pub preview: String,
    pub time_ago: String,
}

/// What posting an event over the HTTP API writes, answers and announces.
pub struct FeedPost {
    pub stored: StoredEvent,
    pub response: PostFeedResponse,
    pub update: FeedEventUpdate,
}

/// Plans an event posted over the HTTP API by `did` at `now`, after its
/// latest event `latest`: the content must not be empty; the event is the
/// next in the agent's chain, unsigned, with a zero previous hash, on the
/// topic of its kind (the kind is cut to 16 bits).
pub fn plan_post(req: &PostFeedRequest, did: &str, latest: u64, now: u64) -> (r: Result<FeedPost, ApiError>)
    requires
        latest < u64::MAX,
    ensures
        req.content@.len() == 0 ==> r is Err && r->Err_0@ == ApiErrorView::BadRequest("content cannot be empty"@),
        req.content@.len() > 0 ==> r is Ok && {
            let p = r->Ok_0;
            &&& p.stored.kind == req.kind as u16
            &&& p.stored.timestamp == now
            &&& p.stored.agent_did@ == did@
            &&& p.stored.sequence == latest + 1
            &&& p.stored.prev_hash@ == Seq::new(32, |i: int| 0u8)
            &&& p.stored.payload@ == vstd::utf8::encode_utf8(req.content@)
            &&& p.stored.signature@.len() == 0
            &&& p.response.event_id@ == event_id_text(did@, (latest + 1) as u64)
            &&& p.response.sequence == latest + 1
            &&& p.response.kind == req.kind as u16
            &&& p.response.topic@ == "feed/kind/"@ + decimal(req.kind as nat)
            &&& p.update.kind == req.kind as u16
            &&& p.update.author_did@ == did@
            &&& p.update.author_short@ == prefix(did@, 18)
            &&& p.update.kind_label@ == decimal(req.kind as nat)
            &&& p.update.preview@ == prefix(req.content@, 80)
            &&& p.update.time_ago@ == "now"@
        },
{
    if req.content.as_str().is_empty() {
        return Err(ApiError::BadRequest("content cannot be empty".to_string()));
    }
    let seq = next_sequence(latest);
    let kind16: u16 = req.kind as u16;
    let mut zeros: Vec<u8> = Vec::new();
    let mut i: usize = 0;
    while i < 32
        invariant
            i <= 32,
            zeros@ == Seq::new(i as nat, |j: int| 0u8),
        decreases 32 - i,
    {
        zeros.push(0u8);
        assert(zeros@ =~= Seq::new(i as nat + 1, |j: int| 0u8));
        i = i + 1;
    }
    let payload = req.content.as_str().as_bytes_vec();
    let stored = StoredEvent {
        kind: kind16,
        timestamp: now,
        agent_did: did.to_string(),
        sequence: seq,
        prev_hash: zeros,
        payload,
        signature: Vec::new(),
    };
    let response = PostFeedResponse {
        event_id: event_id(did, seq),
        sequence: seq,
        kind: kind16,
        topic: concat("feed/kind/", decimal_string(req.kind as u128).as_str()),
    };
    let update = FeedEventUpdate {
        kind: kind16,
        author_did: did.to_string(),
        author_short: take_chars(did, 18),
        kind_label: decimal_string(req.kind as u128),
        preview: take_chars(req.content.as_str(), 80),
        time_ago: "now".to_string(),
    };
    Ok(FeedPost { stored, response, update })
}

} // verus!
