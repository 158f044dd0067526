//! Input sanitization against prompt injection, and the circuit breakers.
use vstd::prelude::*;
use crate::output::{Output, OutputView, outputs_view, result_view, value};
use vstd::utf8::encode_utf8;
use crate::text::{
    concat, decimal, decimal_string, join, join_strings, push_all, str_eq,
    char_alphanumeric, chars_of, contains_chars, has_infix, is_alphanumeric, is_control, is_ctrl,
    is_whitespace, is_ws, str_lowercase, string_from, to_lowercase, views,
};

verus! {

broadcast use vstd::string::group_string_axioms;

// ---------------------------------------------------------------------------
// Input sanitization
// ---------------------------------------------------------------------------

/// The phrases that flag an input as a prompt-injection attempt, matched
/// against the lowercased input.
pub open spec fn injection_patterns() -> Seq<Seq<char>> {
    seq![
        "ignore previous instructions"@,
        "ignore all previous"@,
        "disregard your instructions"@,
        "forget your instructions"@,
        "you are now"@,
        "new instructions:"@,
        "system:"@,
        "override"@,
        "jailbreak"@,
        "sudo"@,
        "as an ai"@,
        "pretend you are"@,
        "act as if"@,
        "roleplay as"@,
        "simulate being"@,
        "bypass"@,
        "ignore constraints"@,
        "output your prompt"@,
        "reveal your instructions"@,
        "show me your system prompt"@,
        "<system>"@,
        "[system]"@,
        "### system"@,
        "--- system"@,
    ]
}

/// The patterns of `pats` that occur in `lower`, in the order of `pats`.
pub open spec fn pattern_flags(lower: Seq<char>, pats: Seq<Seq<char>>) -> Seq<Seq<char>>
    decreases pats.len(),
{
    if pats.len() == 0 {
        Seq::empty()
    } else {
        let r = pattern_flags(lower, pats.drop_last());
        if has_infix(lower, pats.last()) {
            r.push(pats.last())
        } else {
            r
        }
    }
}

/// A character that is neither alphanumeric nor whitespace.
pub open spec fn is_special(c: char) -> bool {
    !char_alphanumeric(c) && !is_ws(c)
}

/// The number of special characters in `s`.
pub open spec fn special_count(s: Seq<char>) -> nat
    decreases s.len(),
{
    if s.len() == 0 {
        0
    } else {
        special_count(s.drop_last()) + if is_special(s.last()) { 1nat } else { 0nat }
    }
}

/// More than 40% of the characters of `s` are special.
pub open spec fn excessive_special(s: Seq<char>) -> bool {
    s.len() > 0 && 5 * special_count(s) > 2 * s.len()
}

/// A control character other than newline, carriage return and tab.
pub open spec fn is_stripped(c: char) -> bool {
    is_ctrl(c) && c != '\n' && c != '\r' && c != '\t'
}

/// `s` holds a character that sanitization strips.
pub open spec fn has_stripped(s: Seq<char>) -> bool {
    exists|i: int| 0 <= i < s.len() && is_stripped(#[trigger] s[i])
}

/// `s` without the characters that sanitization strips.
pub open spec fn strip_controls(s: Seq<char>) -> Seq<char>
    decreases s.len(),
{
    if s.len() == 0 {
        Seq::empty()
    } else {
        let r = strip_controls(s.drop_last());
        if is_stripped(s.last()) {
            r
        } else {
            r.push(s.last())
        }
    }
}

/// The flags raised for input `s`, in the order they are checked.
pub open spec fn sanitize_flags(s: Seq<char>) -> Seq<Seq<char>> {
    pattern_flags(str_lowercase(s), injection_patterns()) + (if excessive_special(s) {
        seq!["excessive_special_chars"@]
    } else {
        Seq::empty()
    }) + (if has_stripped(s) {
        seq!["control_characters"@]
    } else {
        Seq::empty()
    })
}

/// The outcome of sanitizing one input.
pub struct SanitizeResult {
    pub cleaned: String,
    pub flags: Vec<String>,
    pub safe: bool,
}

/// The injection patterns, in order.
pub fn injection_pattern_list() -> (v: Vec<&'static str>)
    ensures
        v@.map_values(|p: &str| p@) == injection_patterns(),
{
    let v = vec![
        "ignore previous instructions",
        "ignore all previous",
        "disregard your instructions",
        "forget your instructions",
        "you are now",
        "new instructions:",
        "system:",
        "override",
        "jailbreak",
        "sudo",
        "as an ai",
        "pretend you are",
        "act as if",
        "roleplay as",
        "simulate being",
        "bypass",
        "ignore constraints",
        "output your prompt",
        "reveal your instructions",
        "show me your system prompt",
        "<system>",
        "[system]",
        "### system",
        "--- system",
    ];
    assert(v@.map_values(|p: &str| p@) =~= injection_patterns());
    v
}

/// Checks an input for injection phrases, obfuscation and control characters,
/// and strips the control characters other than newline, carriage return and tab.
pub fn sanitize_text(input: &str) -> (r: SanitizeResult)
    ensures
        views(r.flags@) == sanitize_flags(input@),
        r.cleaned@ == strip_controls(input@),
        r.safe == (sanitize_flags(input@).len() == 0),
{
    let mut flags: Vec<String> = Vec::new();
    let lower = to_lowercase(input);
    let lower_chars = chars_of(lower.as_str());
    let pats = injection_pattern_list();
    let ghost ps = injection_patterns();
    let mut k: usize = 0;
    assert(ps.take(0) =~= Seq::<Seq<char>>::empty());
    while k < pats.len()
        invariant
            k <= pats.len(),
            ps == injection_patterns(),
            pats@.map_values(|p: &str| p@) == ps,
            lower_chars@ == str_lowercase(input@),
            views(flags@) == pattern_flags(lower_chars@, ps.take(k as int)),
        decreases pats.len() - k,
    {
        let pc = chars_of(pats[k]);
        assert(pc@ == ps[k as int]);
        assert(ps.take(k + 1).drop_last() =~= ps.take(k as int));
        assert(ps.take(k + 1).last() == ps[k as int]);
        if contains_chars(&lower_chars, &pc) {
            let ghost before = views(flags@);
            let f = pats[k].to_string();
            flags.push(f);
            assert(views(flags@) =~= before.push(ps[k as int]));
        }
        k = k + 1;
    }
    assert(ps.take(pats.len() as int) =~= ps);
    let cs = chars_of(input);
    let mut special: usize = 0;
    let mut bad = false;
    let mut cleaned: Vec<char> = Vec::new();
    let mut i: usize = 0;
    assert(input@.take(0) =~= Seq::<char>::empty());
    while i < cs.len()
        invariant
            i <= cs.len(),
            cs@ == input@,
            special as nat == special_count(input@.take(i as int)),
            special <= i,
            bad == has_stripped(input@.take(i as int)),
            cleaned@ == strip_controls(input@.take(i as int)),
        decreases cs.len() - i,
    {
        let c = cs[i];
        let ghost pre = input@.take(i as int);
        let ghost post = input@.take(i + 1);
        assert(post.drop_last() =~= pre);
        assert(post.last() == c);
        if !is_alphanumeric(c) && !is_whitespace(c) {
            special = special + 1;
        }
        let stripped = is_control(c) && c != '\n' && c != '\r' && c != '\t';
        proof {
            if bad {
                let w = choose|j: int| 0 <= j < pre.len() && is_stripped(#[trigger] pre[j]);
                assert(post[w] == pre[w]);
            }
            if stripped {
                assert(post[i as int] == c);
            }
            if !bad && !stripped {
                assert forall|j: int| 0 <= j < post.len() implies !is_stripped(#[trigger] post[j]) by {
                    if j < i {
                        assert(post[j] == pre[j]);
                    }
                }
            }
        }
        if stripped {
            bad = true;
        } else {
            cleaned.push(c);
        }
        i = i + 1;
    }
    assert(input@.take(cs.len() as int) =~= input@);
    if cs.len() > 0 && 5 * (special as u128) > 2 * (cs.len() as u128) {
        let ghost before = views(flags@);
        flags.push("excessive_special_chars".to_string());
        assert(views(flags@) =~= before.push("excessive_special_chars"@));
    }
    if bad {
        let ghost before = views(flags@);
        flags.push("control_characters".to_string());
        assert(views(flags@) =~= before.push("control_characters"@));
    }
    assert(views(flags@) =~= sanitize_flags(input@));
    let safe = flags.len() == 0;
    SanitizeResult { cleaned: string_from(cleaned.as_slice()), flags, safe }
}

proof fn lemma_strip_clean(s: Seq<char>)
    ensures
        !has_stripped(strip_controls(s)),
    decreases s.len(),
{
    if s.len() > 0 {
        lemma_strip_clean(s.drop_last());
        let r = strip_controls(s.drop_last());
        if !is_stripped(s.last()) {
            assert forall|j: int| 0 <= j < r.push(s.last()).len() implies !is_stripped(
                #[trigger] r.push(s.last())[j],
            ) by {
                if j < r.len() {
                    assert(r.push(s.last())[j] == r[j]);
                }
            }
        }
    }
}

proof fn lemma_strip_identity(s: Seq<char>)
    requires
        !has_stripped(s),
    ensures
        strip_controls(s) == s,
    decreases s.len(),
{
    if s.len() > 0 {
        let t = s.drop_last();
        assert forall|j: int| 0 <= j < t.len() implies !is_stripped(#[trigger] t[j]) by {
            assert(t[j] == s[j]);
        }
        lemma_strip_identity(t);
        assert(!is_stripped(s[s.len() - 1]));
        assert(t.push(s.last()) =~= s);
    }
}

/// Sanitized text holds no character that sanitization strips, and
/// sanitizing it again leaves it as it is.
pub proof fn law_sanitize_idempotent(s: Seq<char>)
    ensures
        !has_stripped(strip_controls(s)),
        strip_controls(strip_controls(s)) == strip_controls(s),
{
    lemma_strip_clean(s);
    lemma_strip_identity(strip_controls(s));
}

proof fn lemma_special_count_add(a: Seq<char>, b: Seq<char>)
    ensures
        special_count(a + b) == special_count(a) + special_count(b),
    decreases b.len(),
{
    if b.len() == 0 {
        assert(a + b =~= a);
    } else {
        lemma_special_count_add(a, b.drop_last());
        assert((a + b).drop_last() =~= a + b.drop_last());
        assert((a + b).last() == b.last());
    }
}

/// Whitespace never counts as special: putting a whitespace character
/// anywhere into an input leaves its special-character count as it was, so
/// it can only lower the special-character ratio and never raises the
/// `excessive_special_chars` flag. Any other character that is not
/// alphanumeric counts as one special character.
pub proof fn law_whitespace_is_not_special(a: Seq<char>, c: char, b: Seq<char>)
    ensures
        is_ws(c) ==> special_count(a + seq![c] + b) == special_count(a + b),
        is_ws(c) && excessive_special(a + seq![c] + b) ==> excessive_special(a + b),
        !is_ws(c) && !char_alphanumeric(c) ==> special_count(a + seq![c] + b) == special_count(a + b) + 1,
        char_alphanumeric(c) ==> special_count(a + seq![c] + b) == special_count(a + b),
        special_count(a + b) <= (a + b).len(),
{
    lemma_special_count_add(a + seq![c], b);
    lemma_special_count_add(a, seq![c]);
    lemma_special_count_add(a, b);
    assert(seq![c].drop_last() =~= Seq::<char>::empty());
    assert(special_count(Seq::<char>::empty()) == 0);
    assert(seq![c].last() == c);
    assert(special_count(seq![c]) == special_count(seq![c].drop_last()) + if is_special(seq![c].last()) {
        1nat
    } else {
        0nat
    });
    lemma_special_count_le(a + b);
}

proof fn lemma_special_count_le(s: Seq<char>)
    ensures
        special_count(s) <= s.len(),
    decreases s.len(),
{
    if s.len() > 0 {
        lemma_special_count_le(s.drop_last());
    }
}

/// An input judged safe comes back unchanged.
pub proof fn law_safe_input_unchanged(s: Seq<char>)
    requires
        sanitize_flags(s).len() == 0,
    ensures
        strip_controls(s) == s,
{
    if has_stripped(s) {
        assert(sanitize_flags(s).len() >= 1);
    }
    lemma_strip_identity(s);
}


// ---------------------------------------------------------------------------
// Command outputs
// ---------------------------------------------------------------------------

/// The security subcommands.
pub enum SecurityCommands {
    Sanitize { input: String, kind: String },
    BreakerStatus,
    BreakerTrip { name: String },
    BreakerReset { name: String },
}

/// The label shown for the kind of input being sanitized.
pub open spec fn input_kind_label(kind: Seq<char>) -> Seq<char> {
    if kind == "bounty"@ {
        "Bounty description"@
    } else if kind == "knowledge"@ {
        "Knowledge graph data"@
    } else if kind == "chat"@ {
        "Chat message"@
    } else {
        "Feed event"@
    }
}

/// What `security sanitize` shows for `input` of the given kind.
pub open spec fn sanitize_outputs(input: Seq<char>, kind: Seq<char>) -> Seq<OutputView> {
    let flags = sanitize_flags(input);
    let base = seq![
        OutputView::Value {
            key: "status"@,
            value: if flags.len() == 0 { "SAFE"@ } else { "FLAGGED"@ },
        },
        OutputView::Value { key: "input_type"@, value: input_kind_label(kind) },
        OutputView::Value {
            key: "input_length"@,
            value: decimal((encode_utf8(input).len() as usize) as nat),
        },
        OutputView::Value {
            key: "cleaned_length"@,
            value: decimal((encode_utf8(strip_controls(input)).len() as usize) as nat),
        },
    ];
    if flags.len() == 0 {
        base
    } else {
        base + seq![
            OutputView::Value { key: "flags"@, value: join(flags, ", "@) },
            OutputView::Value {
                key: "recommendation"@,
                value: "REJECT or strip flagged content before processing"@,
            },
        ]
    }
}

/// Sanitizes `input` and reports the verdict, the lengths in bytes and the flags.
pub fn sanitize_cmd(input: &str, kind: &str) -> (out: Vec<Output>)
    ensures
        outputs_view(out@) == sanitize_outputs(input@, kind@),
{
    let result = sanitize_text(input);
    let status = if result.safe { "SAFE" } else { "FLAGGED" };
    let kind_label = if str_eq(kind, "bounty") {
        "Bounty description"
    } else if str_eq(kind, "knowledge") {
        "Knowledge graph data"
    } else if str_eq(kind, "chat") {
        "Chat message"
    } else {
        "Feed event"
    };
    let mut out: Vec<Output> = Vec::new();
    out.push(value("status", status));
    out.push(value("input_type", kind_label));
    let n_in = decimal_string(input.len() as u128);
    out.push(value("input_length", n_in.as_str()));
    let n_clean = decimal_string(result.cleaned.as_str().len() as u128);
    out.push(value("cleaned_length", n_clean.as_str()));
    if !result.safe {
        let flags_str = join_strings(&result.flags, ", ");
        out.push(value("flags", flags_str.as_str()));
        out.push(value("recommendation", "REJECT or strip flagged content before processing"));
    }
    assert(outputs_view(out@) =~= sanitize_outputs(input@, kind@));
    out
}

// ---------------------------------------------------------------------------
// Circuit breakers
// ---------------------------------------------------------------------------

pub enum BreakerState {
    Closed,
    Open,
}

pub struct CircuitBreaker {
    pub name: String,
    pub state: BreakerState,
    pub threshold_description: String,
}

/// The names of the circuit breakers, in order.
pub open spec fn breaker_names() -> Seq<Seq<char>> {
    seq!["token_volume"@, "reputation"@, "bounty_drain"@]
}

/// The threshold descriptions of the circuit breakers, in order.
pub open spec fn breaker_thresholds() -> Seq<Seq<char>> {
    seq![
        "Pauses transfers if >5% of total supply moves in 1 hour"@,
        "Freezes reputation if >10% change in 24 hours"@,
        "Limits bounty pool to max 5% drain per hour"@,
    ]
}

fn breaker(name: &str, description: &str) -> (b: CircuitBreaker)
    ensures
        b.name@ == name@,
        b.threshold_description@ == description@,
        b.state is Closed,
{
    CircuitBreaker {
        name: name.to_string(),
        state: BreakerState::Closed,
        threshold_description: description.to_string(),
    }
}

/// The three circuit breakers, all closed.
pub fn get_breakers() -> (v: Vec<CircuitBreaker>)
    ensures
        v.len() == 3,
        forall|i: int|
            0 <= i < 3 ==> {
                &&& (#[trigger] v@[i]).name@ == breaker_names()[i]
                &&& v@[i].threshold_description@ == breaker_thresholds()[i]
                &&& v@[i].state is Closed
            },
{
    vec![
        breaker("token_volume", "Pauses transfers if >5% of total supply moves in 1 hour"),
        breaker("reputation", "Freezes reputation if >10% change in 24 hours"),
        breaker("bounty_drain", "Limits bounty pool to max 5% drain per hour"),
    ]
}

/// The breaker table that `security breaker-status` shows.
pub open spec fn breaker_table() -> OutputView {
    OutputView::Table {
        headers: seq!["Breaker"@, "State"@, "Threshold"@],
        rows: seq![
            seq![breaker_names()[0], "CLOSED (normal)"@, breaker_thresholds()[0]],
            seq![breaker_names()[1], "CLOSED (normal)"@, breaker_thresholds()[1]],
            seq![breaker_names()[2], "CLOSED (normal)"@, breaker_thresholds()[2]],
        ],
    }
}

/// Shows every breaker with its state and threshold.
pub fn breaker_status() -> (out: Output)
    ensures
        out@ == breaker_table(),
{
    let breakers = get_breakers();
    let mut rows: Vec<Vec<String>> = Vec::new();
    let mut i: usize = 0;
    while i < breakers.len()
        invariant
            i <= breakers.len(),
            breakers.len() == 3,
            forall|k: int|
                0 <= k < 3 ==> {
                    &&& (#[trigger] breakers@[k]).name@ == breaker_names()[k]
                    &&& breakers@[k].threshold_description@ == breaker_thresholds()[k]
                    &&& breakers@[k].state is Closed
                },
            rows.len() == i,
            forall|k: int|
                0 <= k < i ==> views((#[trigger] rows@[k])@) == seq![
                    breaker_names()[k],
                    "CLOSED (normal)"@,
                    breaker_thresholds()[k],
                ],
        decreases breakers.len() - i,
    {
        let b = &breakers[i];
        let state_str = match b.state {
            BreakerState::Closed => "CLOSED (normal)",
            BreakerState::Open => "OPEN (tripped)",
        };
        let row = vec![b.name.clone(), state_str.to_string(), b.threshold_description.clone()];
        assert(views(row@) =~= seq![breaker_names()[i as int], "CLOSED (normal)"@, breaker_thresholds()[i as int]]);
        rows.push(row);
        i = i + 1;
    }
    let headers = vec!["Breaker".to_string(), "State".to_string(), "Threshold".to_string()];
    let out = Output::Table { headers, rows };
    assert(views(headers@) =~= seq!["Breaker"@, "State"@, "Threshold"@]);
    assert(crate::output::rows_view(rows@) =~= seq![
        seq![breaker_names()[0], "CLOSED (normal)"@, breaker_thresholds()[0]],
        seq![breaker_names()[1], "CLOSED (normal)"@, breaker_thresholds()[1]],
        seq![breaker_names()[2], "CLOSED (normal)"@, breaker_thresholds()[2]],
    ]);
    out
}

/// The error for a breaker name that is not one of the three.
pub open spec fn unknown_breaker_error(name: Seq<char>) -> Seq<char> {
    "unknown breaker: "@ + name + ". Valid: token_volume, reputation, bounty_drain"@
}

/// What tripping or resetting breaker `name` gives, with `action` the word shown.
pub open spec fn breaker_action_result(name: Seq<char>, action: Seq<char>) -> Result<Seq<OutputView>, Seq<char>> {
    if breaker_names().contains(name) {
        Ok(seq![
            OutputView::Value { key: "breaker"@, value: name },
            OutputView::Value { key: "action"@, value: action },
        ])
    } else {
        Err(unknown_breaker_error(name))
    }
}

/// What a security subcommand gives.
pub open spec fn security_result(cmd: SecurityCommands) -> Result<Seq<OutputView>, Seq<char>> {
    match cmd {
        SecurityCommands::Sanitize { input, kind } => Ok(sanitize_outputs(input@, kind@)),
        SecurityCommands::BreakerStatus => Ok(seq![breaker_table()]),
        SecurityCommands::BreakerTrip { name } => breaker_action_result(name@, "TRIPPED"@),
        SecurityCommands::BreakerReset { name } => breaker_action_result(name@, "RESET"@),
    }
}

/// Whether `name` is one of the breaker names.
pub fn is_valid_breaker(name: &str) -> (r: bool)
    ensures
        r == breaker_names().contains(name@),
{
    let r = str_eq(name, "token_volume") || str_eq(name, "reputation") || str_eq(name, "bounty_drain");
    proof {
        if r {
            if name@ == "token_volume"@ {
                assert(breaker_names()[0] == name@);
            } else if name@ == "reputation"@ {
                assert(breaker_names()[1] == name@);
            } else {
                assert(breaker_names()[2] == name@);
            }
        } else {
            assert forall|i: int| 0 <= i < 3 implies breaker_names()[i] != name@ by {}
        }
    }
    r
}

fn breaker_action(name: &str, action: &str) -> (r: Result<Vec<Output>, String>)
    ensures
        result_view(r) == breaker_action_result(name@, action@),
{
    if !is_valid_breaker(name) {
        let mut e = concat("unknown breaker: ", name);
        push_all(&mut e, ". Valid: token_volume, reputation, bounty_drain");
        return Err(e);
    }
    let out = vec![value("breaker", name), value("action", action)];
    assert(outputs_view(out@) =~= seq![
        OutputView::Value { key: "breaker"@, value: name@ },
        OutputView::Value { key: "action"@, value: action@ },
    ]);
    Ok(out)
}

/// Trips a breaker: reports the breaker and the action `TRIPPED`.
pub fn breaker_trip(name: &str) -> (r: Result<Vec<Output>, String>)
    ensures
        result_view(r) == breaker_action_result(name@, "TRIPPED"@),
{
    breaker_action(name, "TRIPPED")
}

/// Resets a breaker: reports the breaker and the action `RESET`.
pub fn breaker_reset(name: &str) -> (r: Result<Vec<Output>, String>)
    ensures
        result_view(r) == breaker_action_result(name@, "RESET"@),
{
    breaker_action(name, "RESET")
}

/// Runs a security subcommand and returns what it shows, or its error.
pub fn execute(cmd: &SecurityCommands) -> (r: Result<Vec<Output>, String>)
    ensures
        result_view(r) == security_result(*cmd),
{
    match cmd {
        SecurityCommands::Sanitize { input, kind } => Ok(sanitize_cmd(input.as_str(), kind.as_str())),
        SecurityCommands::BreakerStatus => {
            let out = vec![breaker_status()];
            assert(outputs_view(out@) =~= seq![breaker_table()]);
            Ok(out)
        },
        SecurityCommands::BreakerTrip { name } => breaker_trip(name.as_str()),
        SecurityCommands::BreakerReset { name } => breaker_reset(name.as_str()),
    }
}

} // verus!
