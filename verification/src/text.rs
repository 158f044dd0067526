//! Character classes, splitting, trimming, searching and number formatting
//! over character sequences, with the specifications the rest of the crate
//! states its contracts in.
use vstd::prelude::*;

verus! {

broadcast use vstd::string::group_string_axioms;

// ---------------------------------------------------------------------------
// Character classes
// ---------------------------------------------------------------------------

/// Unicode `White_Space`, as `char::is_whitespace` documents it.
pub open spec fn is_ws(c: char) -> bool {
    ||| c == ' '
    ||| ('\t' <= c && c <= '\r')
    ||| c == '\u{85}'
    ||| c == '\u{A0}'
    ||| c == '\u{1680}'
    ||| ('\u{2000}' <= c && c <= '\u{200A}')
    ||| c == '\u{2028}'
    ||| c == '\u{2029}'
    ||| c == '\u{202F}'
    ||| c == '\u{205F}'
    ||| c == '\u{3000}'
}

/// Unicode general category `Cc`, as `char::is_control` documents it.
pub open spec fn is_ctrl(c: char) -> bool {
    ||| c <= '\u{1F}'
    ||| ('\u{7F}' <= c && c <= '\u{9F}')
}

/// An ASCII hexadecimal digit.
pub open spec fn is_hex_digit(c: char) -> bool {
    ||| ('0' <= c && c <= '9')
    ||| ('a' <= c && c <= 'f')
    ||| ('A' <= c && c <= 'F')
}

/// The result of `char::is_alphanumeric` (Unicode `Alphabetic` or `Numeric`).
pub uninterp spec fn char_alphanumeric(c: char) -> bool;

/// The result of `str::to_lowercase` (full Unicode lowercase mapping).
pub uninterp spec fn str_lowercase(s: Seq<char>) -> Seq<char>;

pub fn is_whitespace(c: char) -> (b: bool)
    ensures
        b == is_ws(c),
{
    c == ' ' || ('\t' <= c && c <= '\r') || c == '\u{85}' || c == '\u{A0}' || c == '\u{1680}'
        || ('\u{2000}' <= c && c <= '\u{200A}') || c == '\u{2028}' || c == '\u{2029}' || c
        == '\u{202F}' || c == '\u{205F}' || c == '\u{3000}'
}

pub fn is_control(c: char) -> (b: bool)
    ensures
        b == is_ctrl(c),
{
    c <= '\u{1F}' || ('\u{7F}' <= c && c <= '\u{9F}')
}

pub fn is_ascii_hexdigit(c: char) -> (b: bool)
    ensures
        b == is_hex_digit(c),
{
    ('0' <= c && c <= '9') || ('a' <= c && c <= 'f') || ('A' <= c && c <= 'F')
}

/// Calls `char::is_alphanumeric`, which tells whether a character is
/// Unicode alphabetic or numeric. The contract only names the answer: the
/// Unicode tables it depends on are not stated here.
#[verifier::external_body]
pub(crate) fn is_alphanumeric(c: char) -> (b: bool)
    ensures
        b == char_alphanumeric(c),
{
    c.is_alphanumeric()
}

/// Calls `str::to_lowercase`, which maps every character to its Unicode
/// lower case (one character may become several). The contract only names
/// the result, a function of the text alone; the mapping is not stated here.
#[verifier::external_body]
pub(crate) fn to_lowercase(s: &str) -> (r: String)
    ensures
        r@ == str_lowercase(s@),
{
    s.to_lowercase()
}

/// Calls `String::push`, which appends one character: the text afterwards
/// is the text before with `c` at its end.
#[verifier::external_body]
pub(crate) fn push_char(s: &mut String, c: char)
    ensures
        final(s)@ == old(s)@.push(c),
{
    s.push(c);
}

/// Calls `String::pop`, which removes and returns the last character, or
/// returns nothing and leaves an empty string as it is.
#[verifier::external_body]
pub(crate) fn pop_char(s: &mut String) -> (r: Option<char>)
    ensures
        old(s)@.len() == 0 ==> r is None && final(s)@ == old(s)@,
        old(s)@.len() > 0 ==> r == Some(old(s)@.last()) && final(s)@ == old(s)@.drop_last(),
{
    s.pop()
}

/// The first `n` characters of `s`, or all of them when it is shorter
/// (`s.chars().take(n)`).
pub open spec fn prefix(s: Seq<char>, n: nat) -> Seq<char> {
    if s.len() <= n { s } else { s.take(n as int) }
}

/// The first `n` characters of `s`.
pub fn take_chars(s: &str, n: usize) -> (r: String)
    ensures
        r@ == prefix(s@, n as nat),
{
    let cs = chars_of(s);
    if cs.len() <= n {
        return string_from(cs.as_slice());
    }
    let mut v: Vec<char> = Vec::new();
    let mut i: usize = 0;
    while i < n
        invariant
            i <= n < cs.len(),
            cs@ == s@,
            v@ == s@.take(i as int),
        decreases n - i,
    {
        v.push(cs[i]);
        assert(s@.take(i + 1) =~= s@.take(i as int).push(s@[i as int]));
        i = i + 1;
    }
    string_from(v.as_slice())
}

// ---------------------------------------------------------------------------
// Conversions between strings and character vectors
// ---------------------------------------------------------------------------

/// The characters of a string slice, in order.
pub fn chars_of(s: &str) -> (v: Vec<char>)
    ensures
        v@ == s@,
{
    let mut v: Vec<char> = Vec::new();
    for c in it: s.chars()
        invariant
            v@ == it.seq().take(it.index() as int),
    {
        v.push(c);
    }
    v
}

/// Builds a string from a slice of characters.
pub fn string_from(v: &[char]) -> (s: String)
    ensures
        s@ == v@,
{
    let mut s = String::new();
    let mut i: usize = 0;
    while i < v.len()
        invariant
            i <= v.len(),
            s@ == v@.take(i as int),
        decreases v.len() - i,
    {
        push_char(&mut s, v[i]);
        assert(v@.take(i as int + 1) =~= v@.take(i as int).push(v@[i as int]));
        i = i + 1;
    }
    assert(v@.take(v.len() as int) =~= v@);
    s
}

/// Appends all characters of `t` to `s`.
pub fn push_all(s: &mut String, t: &str)
    ensures
        final(s)@ == old(s)@ + t@,
{
    let cs = chars_of(t);
    let mut i: usize = 0;
    while i < cs.len()
        invariant
            i <= cs.len(),
            cs@ == t@,
            s@ == old(s)@ + t@.take(i as int),
        decreases cs.len() - i,
    {
        push_char(s, cs[i]);
        assert(t@.take(i as int + 1) =~= t@.take(i as int).push(t@[i as int]));
        i = i + 1;
    }
    assert(t@.take(cs.len() as int) =~= t@);
}

/// Concatenation of two string slices into a new string.
pub fn concat(a: &str, b: &str) -> (s: String)
    ensures
        s@ == a@ + b@,
{
    let mut s = String::new();
    push_all(&mut s, a);
    push_all(&mut s, b);
    assert(Seq::<char>::empty() + a@ + b@ =~= a@ + b@);
    s
}

/// Whether two string slices hold the same characters.
pub fn str_eq(a: &str, b: &str) -> (r: bool)
    ensures
        r == (a@ == b@),
{
    let x = chars_of(a);
    let y = chars_of(b);
    if x.len() != y.len() {
        return false;
    }
    let mut i: usize = 0;
    while i < x.len()
        invariant
            x.len() == y.len(),
            i <= x.len(),
            x@ == a@,
            y@ == b@,
            forall|j: int| 0 <= j < i ==> x@[j] == y@[j],
        decreases x.len() - i,
    {
        if x[i] != y[i] {
            return false;
        }
        i = i + 1;
    }
    assert(x@ =~= y@);
    true
}


// ---------------------------------------------------------------------------
// Splitting and trimming
// ---------------------------------------------------------------------------

/// The pieces of `s` between separator characters, like `str::split` with a
/// character predicate: `k` separators give `k + 1` pieces, empty ones kept.
pub open spec fn split_where(s: Seq<char>, sep: spec_fn(char) -> bool) -> Seq<Seq<char>>
    decreases s.len(),
{
    if s.len() == 0 {
        seq![Seq::<char>::empty()]
    } else {
        let r = split_where(s.drop_last(), sep);
        if sep(s.last()) {
            r.push(Seq::<char>::empty())
        } else {
            r.update(r.len() - 1, r.last().push(s.last()))
        }
    }
}

pub open spec fn comma_sep() -> spec_fn(char) -> bool {
    |c: char| c == ','
}

pub open spec fn ws_sep() -> spec_fn(char) -> bool {
    |c: char| is_ws(c)
}

pub proof fn lemma_split_len(s: Seq<char>, sep: spec_fn(char) -> bool)
    ensures
        split_where(s, sep).len() >= 1,
    decreases s.len(),
{
    if s.len() > 0 {
        lemma_split_len(s.drop_last(), sep);
    }
}

/// `s` without leading whitespace.
pub open spec fn trim_start(s: Seq<char>) -> Seq<char>
    decreases s.len(),
{
    if s.len() > 0 && is_ws(s[0]) {
        trim_start(s.drop_first())
    } else {
        s
    }
}

/// `s` without trailing whitespace.
pub open spec fn trim_end(s: Seq<char>) -> Seq<char>
    decreases s.len(),
{
    if s.len() > 0 && is_ws(s.last()) {
        trim_end(s.drop_last())
    } else {
        s
    }
}

/// `s` without leading and trailing whitespace, as `str::trim` gives it.
pub open spec fn trim(s: Seq<char>) -> Seq<char> {
    trim_end(trim_start(s))
}

/// The non-empty sequences of `pieces`, in order.
pub open spec fn keep_nonempty(pieces: Seq<Seq<char>>) -> Seq<Seq<char>>
    decreases pieces.len(),
{
    if pieces.len() == 0 {
        Seq::empty()
    } else {
        let r = keep_nonempty(pieces.drop_last());
        if pieces.last().len() > 0 {
            r.push(pieces.last())
        } else {
            r
        }
    }
}

/// The views of a vector of strings.
pub open spec fn views(v: Seq<String>) -> Seq<Seq<char>> {
    v.map_values(|x: String| x@)
}

proof fn lemma_trim_start_skip(s: Seq<char>, i: int)
    requires
        0 <= i <= s.len(),
        forall|k: int| 0 <= k < i ==> is_ws(#[trigger] s[k]),
    ensures
        trim_start(s) == trim_start(s.subrange(i, s.len() as int)),
    decreases i,
{
    if i == 0 {
        assert(s.subrange(0, s.len() as int) =~= s);
    } else {
        assert(is_ws(s[0]));
        let t = s.drop_first();
        assert forall|k: int| 0 <= k < i - 1 implies is_ws(#[trigger] t[k]) by {
            assert(t[k] == s[k + 1]);
        }
        lemma_trim_start_skip(t, i - 1);
        assert(t.subrange(i - 1, t.len() as int) =~= s.subrange(i, s.len() as int));
    }
}

proof fn lemma_trim_end_skip(s: Seq<char>, j: int)
    requires
        0 <= j <= s.len(),
        forall|k: int| j <= k < s.len() ==> is_ws(#[trigger] s[k]),
    ensures
        trim_end(s) == trim_end(s.subrange(0, j)),
    decreases s.len() - j,
{
    if j == s.len() {
        assert(s.subrange(0, j) =~= s);
    } else {
        assert(is_ws(s[s.len() - 1]));
        let t = s.drop_last();
        assert forall|k: int| j <= k < t.len() implies is_ws(#[trigger] t[k]) by {
            assert(t[k] == s[k]);
        }
        lemma_trim_end_skip(t, j);
        assert(t.subrange(0, j) =~= s.subrange(0, j));
    }
}

/// The characters of `v` without leading and trailing whitespace.
pub fn trim_chars(v: &[char]) -> (r: Vec<char>)
    ensures
        r@ == trim(v@),
{
    let n = v.len();
    let mut i: usize = 0;
    while i < n && is_whitespace(v[i])
        invariant
            i <= n,
            n == v@.len(),
            forall|k: int| 0 <= k < i ==> is_ws(#[trigger] v@[k]),
        decreases n - i,
    {
        i = i + 1;
    }
    proof {
        lemma_trim_start_skip(v@, i as int);
    }
    let ghost t = v@.subrange(i as int, n as int);
    assert(trim_start(t) == t);
    let mut j: usize = n;
    while j > i && is_whitespace(v[j - 1])
        invariant
            i <= j <= n,
            n == v@.len(),
            forall|k: int| j <= k < n ==> is_ws(#[trigger] v@[k]),
        decreases j,
    {
        j = j - 1;
    }
    proof {
        assert forall|k: int| j - i <= k < t.len() implies is_ws(#[trigger] t[k]) by {
            assert(t[k] == v@[k + i]);
        }
        lemma_trim_end_skip(t, j - i);
        assert(t.subrange(0, j - i) =~= v@.subrange(i as int, j as int));
        let u = v@.subrange(i as int, j as int);
        if u.len() > 0 {
            assert(u.last() == v@[j - 1]);
        }
    }
    let mut r: Vec<char> = Vec::new();
    let mut k: usize = i;
    while k < j
        invariant
            i <= k <= j <= n,
            n == v@.len(),
            r@ == v@.subrange(i as int, k as int),
        decreases j - k,
    {
        r.push(v[k]);
        assert(v@.subrange(i as int, k + 1) =~= v@.subrange(i as int, k as int).push(v@[k as int]));
        k = k + 1;
    }
    r
}

/// Splits `v` at every character for which `comma` (when `true`) is `','`,
/// or (when `false`) is whitespace.
fn split_pieces(v: &[char], comma: bool) -> (r: Vec<Vec<char>>)
    ensures
        r@.map_values(|p: Vec<char>| p@) == split_where(v@, if comma { comma_sep() } else { ws_sep() }),
{
    let ghost sep = if comma { comma_sep() } else { ws_sep() };
    let mut done: Vec<Vec<char>> = Vec::new();
    let mut cur: Vec<char> = Vec::new();
    let mut i: usize = 0;
    assert(v@.take(0) =~= Seq::<char>::empty());
    while i < v.len()
        invariant
            i <= v.len(),
            sep == (if comma { comma_sep() } else { ws_sep() }),
            done@.map_values(|p: Vec<char>| p@).push(cur@) == split_where(v@.take(i as int), sep),
        decreases v.len() - i,
    {
        let c = v[i];
        let is_sep = if comma { c == ',' } else { is_whitespace(c) };
        assert(v@.take(i + 1).drop_last() =~= v@.take(i as int));
        assert(v@.take(i + 1).last() == c);
        proof {
            lemma_split_len(v@.take(i as int), sep);
        }
        let ghost before = done@.map_values(|p: Vec<char>| p@);
        if is_sep {
            let old_cur = cur;
            cur = Vec::new();
            done.push(old_cur);
            assert(done@.map_values(|p: Vec<char>| p@) =~= before.push(old_cur@));
        } else {
            let ghost prev = cur@;
            cur.push(c);
            assert(before.push(cur@) =~= before.push(prev).update(before.len() as int, prev.push(c)));
        }
        i = i + 1;
    }
    assert(v@.take(v.len() as int) =~= v@);
    let ghost before = done@.map_values(|p: Vec<char>| p@);
    done.push(cur);
    assert(done@.map_values(|p: Vec<char>| p@) =~= before.push(cur@));
    done
}


/// The trimmed, non-empty comma-separated items of `s`.
pub open spec fn comma_items(s: Seq<char>) -> Seq<Seq<char>> {
    keep_nonempty(split_where(s, comma_sep()).map_values(|p: Seq<char>| trim(p)))
}

/// The whitespace-separated words of `s`, as `str::split_whitespace` yields them.
pub open spec fn words(s: Seq<char>) -> Seq<Seq<char>> {
    keep_nonempty(split_where(s, ws_sep()))
}

/// The pieces of `pieces`, each trimmed when `trim_each` holds, that are not empty.
fn collect_nonempty(pieces: &Vec<Vec<char>>, trim_each: bool) -> (r: Vec<String>)
    ensures
        views(r@) == keep_nonempty(
            if trim_each {
                pieces@.map_values(|p: Vec<char>| p@).map_values(|p: Seq<char>| trim(p))
            } else {
                pieces@.map_values(|p: Vec<char>| p@)
            },
        ),
{
    let ghost raw = pieces@.map_values(|p: Vec<char>| p@);
    let ghost src = if trim_each { raw.map_values(|p: Seq<char>| trim(p)) } else { raw };
    let mut r: Vec<String> = Vec::new();
    let mut i: usize = 0;
    assert(src.take(0) =~= Seq::<Seq<char>>::empty());
    assert(views(r@) =~= Seq::<Seq<char>>::empty());
    while i < pieces.len()
        invariant
            i <= pieces.len(),
            raw == pieces@.map_values(|p: Vec<char>| p@),
            src == (if trim_each { raw.map_values(|p: Seq<char>| trim(p)) } else { raw }),
            src.len() == pieces.len(),
            views(r@) == keep_nonempty(src.take(i as int)),
        decreases pieces.len() - i,
    {
        let piece: Vec<char> = if trim_each { trim_chars(pieces[i].as_slice()) } else { pieces[i].clone() };
        assert(piece@ == src[i as int]);
        assert(src.take(i + 1).drop_last() =~= src.take(i as int));
        assert(src.take(i + 1).last() == src[i as int]);
        if piece.len() > 0 {
            let ghost before = r@;
            let item = string_from(piece.as_slice());
            r.push(item);
            assert(views(r@) =~= views(before).push(item@));
        }
        i = i + 1;
    }
    assert(src.take(pieces.len() as int) =~= src);
    r
}

/// Splits a comma-separated list, trimming each item and dropping empty ones.
pub fn comma_list(s: &str) -> (r: Vec<String>)
    ensures
        views(r@) == comma_items(s@),
{
    let cs = chars_of(s);
    let pieces = split_pieces(cs.as_slice(), true);
    collect_nonempty(&pieces, true)
}

/// The whitespace-separated words of `s`.
pub fn split_words(s: &str) -> (r: Vec<String>)
    ensures
        views(r@) == words(s@),
{
    let cs = chars_of(s);
    let pieces = split_pieces(cs.as_slice(), false);
    collect_nonempty(&pieces, false)
}


// ---------------------------------------------------------------------------
// Searching
// ---------------------------------------------------------------------------

/// `n` occurs in `h` starting at index `i`.
pub open spec fn occurs_at(h: Seq<char>, n: Seq<char>, i: int) -> bool {
    0 <= i && i + n.len() <= h.len() && h.subrange(i, i + n.len()) == n
}

/// `n` occurs somewhere in `h`, as `str::contains` reports it.
pub open spec fn has_infix(h: Seq<char>, n: Seq<char>) -> bool {
    exists|i: int| occurs_at(h, n, i)
}

/// `h` begins with `p`, as `str::starts_with` reports it.
pub open spec fn has_prefix(h: Seq<char>, p: Seq<char>) -> bool {
    p.len() <= h.len() && h.subrange(0, p.len() as int) == p
}

/// Whether `n` occurs in `h`.
pub fn contains_chars(h: &Vec<char>, n: &Vec<char>) -> (r: bool)
    ensures
        r == has_infix(h@, n@),
{
    if n.len() > h.len() {
        assert forall|i: int| !occurs_at(h@, n@, i) by {}
        return false;
    }
    let last = h.len() - n.len();
    let mut i: usize = 0;
    while i <= last
        invariant
            n.len() <= h.len(),
            last == h.len() - n.len(),
            forall|k: int| 0 <= k < i ==> !occurs_at(h@, n@, k),
        decreases last + 1 - i,
    {
        let mut j: usize = 0;
        while j < n.len() && h[i + j] == n[j]
            invariant
                j <= n.len(),
                i <= last,
                last == h.len() - n.len(),
                forall|k: int| 0 <= k < j ==> h@[i + k] == n@[k],
            decreases n.len() - j,
        {
            j = j + 1;
        }
        if j == n.len() {
            assert(h@.subrange(i as int, i + n.len()) =~= n@);
            assert(occurs_at(h@, n@, i as int));
            return true;
        }
        assert(!occurs_at(h@, n@, i as int)) by {
            if occurs_at(h@, n@, i as int) {
                assert(h@.subrange(i as int, i + n.len())[j as int] == h@[i + j]);
            }
        }
        i = i + 1;
    }
    assert forall|k: int| !occurs_at(h@, n@, k) by {
        if 0 <= k && k + n.len() <= h.len() {
            assert(k < i);
        }
    }
    false
}

/// Whether the string `h` contains the string `n`.
pub fn str_contains(h: &str, n: &str) -> (r: bool)
    ensures
        r == has_infix(h@, n@),
{
    contains_chars(&chars_of(h), &chars_of(n))
}

/// Whether `h` begins with `p`.
pub fn str_starts_with(h: &str, p: &str) -> (r: bool)
    ensures
        r == has_prefix(h@, p@),
{
    let hc = chars_of(h);
    let pc = chars_of(p);
    if pc.len() > hc.len() {
        return false;
    }
    let mut j: usize = 0;
    while j < pc.len()
        invariant
            pc.len() <= hc.len(),
            j <= pc.len(),
            hc@ == h@,
            pc@ == p@,
            forall|k: int| 0 <= k < j ==> hc@[k] == pc@[k],
        decreases pc.len() - j,
    {
        if hc[j] != pc[j] {
            assert(h@.subrange(0, p@.len() as int)[j as int] == hc@[j as int]);
            return false;
        }
        j = j + 1;
    }
    assert(h@.subrange(0, p@.len() as int) =~= p@);
    true
}

// ---------------------------------------------------------------------------
// Number formatting
// ---------------------------------------------------------------------------

/// The decimal digit character for `d` (`0 <= d < 10`).
pub open spec fn digit(d: int) -> char {
    if d == 0 { '0' }
    else if d == 1 { '1' }
    else if d == 2 { '2' }
    else if d == 3 { '3' }
    else if d == 4 { '4' }
    else if d == 5 { '5' }
    else if d == 6 { '6' }
    else if d == 7 { '7' }
    else if d == 8 { '8' }
    else { '9' }
}

/// The decimal representation of `n`, without leading zeros.
pub open spec fn decimal(n: nat) -> Seq<char>
    decreases n,
{
    if n < 10 {
        seq![digit(n as int)]
    } else {
        decimal(n / 10).push(digit((n % 10) as int))
    }
}

/// A decimal representation is never empty, and has at least two digits
/// from ten on.
pub proof fn lemma_decimal_len(n: nat)
    ensures
        decimal(n).len() >= 1,
        n >= 10 ==> decimal(n).len() >= 2,
    decreases n,
{
    if n >= 10 {
        lemma_decimal_len(n / 10);
    }
}

proof fn lemma_digit_injective(x: int, y: int)
    requires
        0 <= x < 10,
        0 <= y < 10,
        digit(x) == digit(y),
    ensures
        x == y,
{
}

/// Different numbers have different decimal representations.
pub proof fn lemma_decimal_injective(a: nat, b: nat)
    requires
        decimal(a) == decimal(b),
    ensures
        a == b,
    decreases a,
{
    lemma_decimal_len(a);
    lemma_decimal_len(b);
    if a >= 10 && b >= 10 {
        assert(decimal(a).drop_last() =~= decimal(a / 10));
        assert(decimal(b).drop_last() =~= decimal(b / 10));
        lemma_decimal_injective(a / 10, b / 10);
        assert(decimal(a).last() == digit((a % 10) as int));
        assert(decimal(b).last() == digit((b % 10) as int));
        lemma_digit_injective((a % 10) as int, (b % 10) as int);
        assert(a == (a / 10) * 10 + a % 10);
        assert(b == (b / 10) * 10 + b % 10);
    } else if a < 10 && b < 10 {
        assert(decimal(a) == seq![digit(a as int)]);
        assert(decimal(b) == seq![digit(b as int)]);
        assert(decimal(a)[0] == decimal(b)[0]);
        assert(seq![digit(a as int)][0] == digit(a as int));
        assert(seq![digit(b as int)][0] == digit(b as int));
        lemma_digit_injective(a as int, b as int);
    } else {
        assert(decimal(a).len() == decimal(b).len());
    }
}

/// The lowercase hexadecimal digit character for `d` (`0 <= d < 16`).
pub open spec fn hex_lower(d: int) -> char {
    if d < 10 { digit(d) }
    else if d == 10 { 'a' }
    else if d == 11 { 'b' }
    else if d == 12 { 'c' }
    else if d == 13 { 'd' }
    else if d == 14 { 'e' }
    else { 'f' }
}

/// Two lowercase hexadecimal digits per byte, as `format!("{b:02x}")` gives them.
pub open spec fn hex_of(bytes: Seq<u8>) -> Seq<char>
    decreases bytes.len(),
{
    if bytes.len() == 0 {
        Seq::empty()
    } else {
        let b = bytes.last();
        hex_of(bytes.drop_last()).push(hex_lower(b as int / 16)).push(hex_lower(b as int % 16))
    }
}

pub fn digit_char(d: u8) -> (c: char)
    requires
        d < 10,
    ensures
        c == digit(d as int),
{
    match d {
        0 => '0',
        1 => '1',
        2 => '2',
        3 => '3',
        4 => '4',
        5 => '5',
        6 => '6',
        7 => '7',
        8 => '8',
        _ => '9',
    }
}

pub fn hex_char(d: u8) -> (c: char)
    requires
        d < 16,
    ensures
        c == hex_lower(d as int),
{
    if d < 10 {
        digit_char(d)
    } else {
        match d {
            10 => 'a',
            11 => 'b',
            12 => 'c',
            13 => 'd',
            14 => 'e',
            _ => 'f',
        }
    }
}

/// Appends the decimal representation of `n` to `s`.
pub fn push_decimal(s: &mut String, n: u128)
    ensures
        final(s)@ == old(s)@ + decimal(n as nat),
    decreases n,
{
    if n < 10 {
        push_char(s, digit_char(n as u8));
        assert(old(s)@.push(digit(n as int)) =~= old(s)@ + seq![digit(n as int)]);
    } else {
        push_decimal(s, n / 10);
        push_char(s, digit_char((n % 10) as u8));
        assert(old(s)@ + decimal((n / 10) as nat) + seq![digit((n % 10) as int)] =~= old(s)@
            + decimal((n / 10) as nat).push(digit((n % 10) as int)));
    }
}

/// The decimal representation of `n` (`u128::to_string`).
pub fn decimal_string(n: u128) -> (s: String)
    ensures
        s@ == decimal(n as nat),
{
    let mut s = String::new();
    push_decimal(&mut s, n);
    assert(Seq::<char>::empty() + decimal(n as nat) =~= decimal(n as nat));
    s
}

/// Two lowercase hexadecimal digits per byte.
pub fn bytes_to_hex(bytes: &[u8]) -> (s: String)
    ensures
        s@ == hex_of(bytes@),
{
    let mut s = String::new();
    let mut i: usize = 0;
    assert(bytes@.take(0) =~= Seq::<u8>::empty());
    while i < bytes.len()
        invariant
            i <= bytes.len(),
            s@ == hex_of(bytes@.take(i as int)),
        decreases bytes.len() - i,
    {
        let b = bytes[i];
        push_char(&mut s, hex_char(b / 16));
        push_char(&mut s, hex_char(b % 16));
        assert(bytes@.take(i + 1).drop_last() =~= bytes@.take(i as int));
        i = i + 1;
    }
    assert(bytes@.take(bytes.len() as int) =~= bytes@);
    s
}


// ---------------------------------------------------------------------------
// Joining
// ---------------------------------------------------------------------------

/// The items of `list` separated by `sep`, as `[String]::join` gives them.
pub open spec fn join(list: Seq<Seq<char>>, sep: Seq<char>) -> Seq<char>
    decreases list.len(),
{
    if list.len() == 0 {
        Seq::empty()
    } else if list.len() == 1 {
        list[0]
    } else {
        join(list.drop_last(), sep) + sep + list.last()
    }
}

/// Joins strings with a separator.
pub fn join_strings(list: &Vec<String>, sep: &str) -> (r: String)
    ensures
        r@ == join(views(list@), sep@),
{
    let ghost vs = views(list@);
    let mut r = String::new();
    let mut i: usize = 0;
    assert(vs.take(0) =~= Seq::<Seq<char>>::empty());
    while i < list.len()
        invariant
            i <= list.len(),
            vs == views(list@),
            vs.len() == list.len(),
            r@ == join(vs.take(i as int), sep@),
        decreases list.len() - i,
    {
        assert(vs.take(i + 1).drop_last() =~= vs.take(i as int));
        assert(vs.take(i + 1).last() == list@[i as int]@);
        if i == 0 {
            push_all(&mut r, list[i].as_str());
            assert(vs.take(1)[0] == list@[0]@);
            assert(Seq::<char>::empty() + list@[0]@ =~= list@[0]@);
        } else {
            push_all(&mut r, sep);
            push_all(&mut r, list[i].as_str());
        }
        i = i + 1;
    }
    assert(vs.take(list.len() as int) =~= vs);
    r
}


// ---------------------------------------------------------------------------
// Padding, repetition and fixed-point formatting
// ---------------------------------------------------------------------------

/// `n` copies of `c`.
pub open spec fn repeat(c: char, n: nat) -> Seq<char> {
    Seq::new(n, |i: int| c)
}

/// `s` padded on the left with `fill` to width `w`, as `format!("{:>w$}")` does.
pub open spec fn pad_left(s: Seq<char>, w: nat, fill: char) -> Seq<char> {
    if s.len() >= w {
        s
    } else {
        repeat(fill, (w - s.len()) as nat) + s
    }
}

/// The lowercase hexadecimal representation of `n`, without leading zeros.
pub open spec fn hex_number(n: nat) -> Seq<char>
    decreases n,
{
    if n < 16 {
        seq![hex_lower(n as int)]
    } else {
        hex_number(n / 16).push(hex_lower((n % 16) as int))
    }
}

/// The hexadecimal digits of `n`.
pub fn hex_number_chars(n: u64) -> (v: Vec<char>)
    ensures
        v@ == hex_number(n as nat),
    decreases n,
{
    if n < 16 {
        let mut v: Vec<char> = Vec::new();
        v.push(hex_char(n as u8));
        assert(v@ =~= seq![hex_lower(n as int)]);
        v
    } else {
        let mut v = hex_number_chars(n / 16);
        v.push(hex_char((n % 16) as u8));
        v
    }
}

/// Appends `n` in lowercase hexadecimal, zero-padded to at least `width`
/// digits (`{:0width$x}`).
pub fn push_padded_hex(s: &mut String, n: u64, width: usize)
    ensures
        final(s)@ == old(s)@ + pad_left(hex_number(n as nat), width as nat, '0'),
{
    let h = hex_number_chars(n);
    if h.len() < width {
        push_repeat(s, '0', width - h.len());
    }
    let t = string_from(h.as_slice());
    push_all(s, t.as_str());
    assert(s@ =~= old(s)@ + pad_left(hex_number(n as nat), width as nat, '0'));
}

/// Appends `n` copies of `c` to `s`.
pub fn push_repeat(s: &mut String, c: char, n: usize)
    ensures
        final(s)@ == old(s)@ + repeat(c, n as nat),
{
    let mut i: usize = 0;
    while i < n
        invariant
            i <= n,
            s@ == old(s)@ + repeat(c, i as nat),
        decreases n - i,
    {
        push_char(s, c);
        assert(old(s)@ + repeat(c, (i + 1) as nat) =~= (old(s)@ + repeat(c, i as nat)).push(c));
        i = i + 1;
    }
}



// ---------------------------------------------------------------------------
// UTF-8 byte lengths and byte-indexed slicing
// ---------------------------------------------------------------------------

/// The number of bytes UTF-8 uses for `c`.
pub open spec fn utf8_width(c: char) -> nat {
    if (c as u32) < 0x80 {
        1
    } else if (c as u32) < 0x800 {
        2
    } else if (c as u32) < 0x10000 {
        3
    } else {
        4
    }
}

/// The number of bytes of the UTF-8 encoding of `s` (`str::len`).
pub open spec fn utf8_len(s: Seq<char>) -> nat
    decreases s.len(),
{
    if s.len() == 0 {
        0
    } else {
        utf8_len(s.drop_last()) + utf8_width(s.last())
    }
}

/// `n` is a character boundary of `s`: some prefix of `s` is exactly `n` bytes long.
pub open spec fn is_boundary(s: Seq<char>, n: nat) -> bool {
    exists|k: int| 0 <= k <= s.len() && #[trigger] utf8_len(s.take(k)) == n
}

/// The characters of the first `n` bytes of `s` (`&s[..n]`, at a boundary).
pub open spec fn byte_prefix(s: Seq<char>, n: nat) -> Seq<char> {
    s.take(choose|k: int| 0 <= k <= s.len() && #[trigger] utf8_len(s.take(k)) == n)
}

/// The characters after the first `n` bytes of `s` (`&s[n..]`, at a boundary).
pub open spec fn byte_suffix(s: Seq<char>, n: nat) -> Seq<char> {
    s.skip(choose|k: int| 0 <= k <= s.len() && #[trigger] utf8_len(s.take(k)) == n)
}

pub fn char_width(c: char) -> (w: usize)
    ensures
        w as nat == utf8_width(c),
{
    let v = c as u32;
    if v < 0x80 {
        1
    } else if v < 0x800 {
        2
    } else if v < 0x10000 {
        3
    } else {
        4
    }
}

proof fn lemma_utf8_len_take_mono(s: Seq<char>, i: int, j: int)
    requires
        0 <= i <= j <= s.len(),
    ensures
        utf8_len(s.take(i)) <= utf8_len(s.take(j)),
        i < j ==> utf8_len(s.take(i)) < utf8_len(s.take(j)),
    decreases j - i,
{
    if i < j {
        lemma_utf8_len_take_mono(s, i, j - 1);
        assert(s.take(j).drop_last() =~= s.take(j - 1));
    }
}

/// The byte length of `s` together with the character index at byte `n`,
/// when `n` is a boundary.
pub fn utf8_scan(cs: &Vec<char>, n: usize) -> (r: (u128, Option<usize>))
    ensures
        r.0 as nat == utf8_len(cs@),
        is_boundary(cs@, n as nat) <==> r.1 is Some,
        r.1 matches Some(k) ==> k <= cs.len() && utf8_len(cs@.take(k as int)) == n,
{
    let mut total: u128 = 0;
    let mut at: Option<usize> = if n == 0 { Some(0) } else { None };
    let mut i: usize = 0;
    assert(cs@.take(0) =~= Seq::<char>::empty());
    while i < cs.len()
        invariant
            i <= cs.len(),
            total as nat == utf8_len(cs@.take(i as int)),
            total <= 4 * i,
            at matches Some(k) ==> k <= i && utf8_len(cs@.take(k as int)) == n,
            at is None ==> forall|k: int| 0 <= k <= i ==> utf8_len(#[trigger] cs@.take(k)) != n,
        decreases cs.len() - i,
    {
        let w = char_width(cs[i]);
        assert(cs@.take(i + 1).drop_last() =~= cs@.take(i as int));
        total = total + w as u128;
        i = i + 1;
        if at.is_none() && total == n as u128 {
            at = Some(i);
        }
        proof {
            if at is None {
                assert forall|k: int| 0 <= k <= i implies utf8_len(#[trigger] cs@.take(k)) != n by {
                    if k == i {
                    }
                }
            }
        }
    }
    assert(cs@.take(cs.len() as int) =~= cs@);
    proof {
        match at {
            Some(k) => {
                assert(is_boundary(cs@, n as nat));
            },
            None => {},
        }
    }
    (total, at)
}

pub proof fn lemma_boundary_unique(s: Seq<char>, n: nat, k: int)
    requires
        0 <= k <= s.len(),
        utf8_len(s.take(k)) == n,
    ensures
        byte_prefix(s, n) == s.take(k),
        byte_suffix(s, n) == s.skip(k),
{
    let c = choose|j: int| 0 <= j <= s.len() && #[trigger] utf8_len(s.take(j)) == n;
    if c < k {
        lemma_utf8_len_take_mono(s, c, k);
    } else if c > k {
        lemma_utf8_len_take_mono(s, k, c);
    }
}

/// The characters of `s` from index `from` to index `to`.
pub fn chars_range(cs: &Vec<char>, from: usize, to: usize) -> (r: String)
    requires
        from <= to <= cs.len(),
    ensures
        r@ == cs@.subrange(from as int, to as int),
{
    let mut r = String::new();
    let mut i = from;
    while i < to
        invariant
            from <= i <= to <= cs.len(),
            r@ == cs@.subrange(from as int, i as int),
        decreases to - i,
    {
        push_char(&mut r, cs[i]);
        assert(cs@.subrange(from as int, i + 1) =~= cs@.subrange(from as int, i as int).push(cs@[i as int]));
        i = i + 1;
    }
    r
}

/// A DID shortened for tables: its first 24 bytes and `...` when it is longer.
pub open spec fn short_did_text(did: Seq<char>) -> Seq<char> {
    if utf8_len(did) > 24 {
        byte_prefix(did, 24) + "..."@
    } else {
        did
    }
}

/// `did` can be cut at byte 24 when it is longer than that.
pub open spec fn short_did_ok(did: Seq<char>) -> bool {
    utf8_len(did) > 24 ==> is_boundary(did, 24)
}

pub fn short_did(did: &str) -> (r: String)
    requires
        short_did_ok(did@),
    ensures
        r@ == short_did_text(did@),
{
    let cs = chars_of(did);
    let (len, at) = utf8_scan(&cs, 24);
    if len > 24 {
        let k = at.unwrap();
        proof { lemma_boundary_unique(did@, 24, k as int); }
        let mut r = chars_range(&cs, 0, k);
        push_all(&mut r, "...");
        assert(cs@.subrange(0, k as int) =~= cs@.take(k as int));
        r
    } else {
        did.to_string()
    }
}


// ---------------------------------------------------------------------------
// Parsing unsigned integers
// ---------------------------------------------------------------------------

pub open spec fn is_digit_char(c: char) -> bool {
    '0' <= c && c <= '9'
}

/// The value of a decimal digit character.
pub open spec fn digit_value(c: char) -> int {
    c as int - '0' as int
}

/// The value of a string of decimal digits.
pub open spec fn digits_value(s: Seq<char>) -> int
    decreases s.len(),
{
    if s.len() == 0 {
        0
    } else {
        digits_value(s.drop_last()) * 10 + digit_value(s.last())
    }
}

/// `s` without one leading `+`.
pub open spec fn unsigned_body(s: Seq<char>) -> Seq<char> {
    if s.len() > 0 && s[0] == '+' { s.drop_first() } else { s }
}

/// What `str::parse` gives for an unsigned integer type whose largest value is
/// `max`: one optional `+`, then at least one decimal digit, and a value that fits.
pub open spec fn parse_unsigned(s: Seq<char>, max: int) -> Option<int> {
    let b = unsigned_body(s);
    if b.len() > 0 && (forall|i: int| 0 <= i < b.len() ==> is_digit_char(#[trigger] b[i])) && digits_value(b) <= max {
        Some(digits_value(b))
    } else {
        None
    }
}

proof fn lemma_digits_value_grows(b: Seq<char>, k: int)
    requires
        0 <= k <= b.len(),
        forall|i: int| 0 <= i < b.len() ==> is_digit_char(#[trigger] b[i]),
    ensures
        digits_value(b) >= digits_value(b.take(k)),
        digits_value(b) >= 0,
    decreases b.len(),
{
    if b.len() == 0 {
        assert(b.take(k) =~= b);
    } else if k == b.len() {
        assert(b.take(k) =~= b);
        lemma_digits_value_grows(b.drop_last(), 0);
    } else {
        assert forall|i: int| 0 <= i < b.drop_last().len() implies is_digit_char(#[trigger] b.drop_last()[i]) by {
            assert(b.drop_last()[i] == b[i]);
        }
        lemma_digits_value_grows(b.drop_last(), k);
        assert(b.drop_last().take(k) =~= b.take(k));
        assert(is_digit_char(b[b.len() - 1]));
    }
}

/// Parses an unsigned decimal integer no larger than `max`, as `str::parse`
/// does for an unsigned type whose largest value is `max`.
pub fn parse_unsigned_max(s: &str, max: u64) -> (r: Option<u64>)
    ensures
        match parse_unsigned(s@, max as int) {
            Some(v) => r == Some(v as u64) && 0 <= v <= max,
            None => r is None,
        },
{
    let cs = chars_of(s);
    let start: usize = if cs.len() > 0 && cs[0] == '+' { 1 } else { 0 };
    let ghost b = unsigned_body(s@);
    assert(b =~= cs@.subrange(start as int, cs@.len() as int));
    if start == cs.len() {
        return None;
    }
    let mut acc: u64 = 0;
    let mut j: usize = start;
    assert(b.take(0) =~= Seq::<char>::empty());
    while j < cs.len()
        invariant
            start <= j <= cs.len(),
            cs@ == s@,
            b == cs@.subrange(start as int, cs@.len() as int),
            b == unsigned_body(s@),
            acc as int == digits_value(b.take(j - start)),
            acc <= max,
            forall|i: int| 0 <= i < j - start ==> is_digit_char(#[trigger] b[i]),
        decreases cs.len() - j,
    {
        let c = cs[j];
        assert(c == b[j - start]);
        if !('0' <= c && c <= '9') {
            assert(!is_digit_char(b[j - start]));
            assert(parse_unsigned(s@, max as int) is None);
            return None;
        }
        let d: u8 = (c as u8) - ('0' as u8);
        assert(d as int == digit_value(c)) by {
            assert('0' <= c <= '9');
        }
        assert(b.take(j - start + 1).drop_last() =~= b.take(j - start));
        assert(b.take(j - start + 1).last() == c);
        let next: u128 = (acc as u128) * 10 + (d as u128);
        assert(next as int == digits_value(b.take(j - start + 1)));
        if next > max as u128 {
            proof {
                if forall|i: int| 0 <= i < b.len() ==> is_digit_char(#[trigger] b[i]) {
                    lemma_digits_value_grows(b, j - start + 1);
                    assert(digits_value(b) > max);
                }
                assert(parse_unsigned(s@, max as int) is None);
            }
            return None;
        }
        acc = next as u64;
        j = j + 1;
    }
    assert(b.take(b.len() as int) =~= b);
    Some(acc)
}

} // verus!
