//! Agent discovery: the capability lists its commands take, and the checks
//! they make before any candidate is scored.
use vstd::prelude::*;
use crate::text::{comma_items, comma_list, str_eq, views};

verus! {

/// The items of a comma-separated list: each trimmed, empty items dropped.
pub fn parse_comma_list(s: &str) -> (items: Vec<String>)
    ensures
        views(items@) == comma_items(s@),
{
    comma_list(s)
}

/// The query of a complement search: the requester's capabilities.
pub struct ComplementQuery {
    pub capabilities: String,
    pub limit: usize,
}

/// The query that scores one agent against required capabilities.
pub struct ScoreQuery {
    pub agent: String,
    pub capabilities: String,
}

/// The capabilities a search or a complement needs, or why it is refused:
/// the list must hold at least one capability.
pub fn required_capabilities(s: &str) -> (r: Result<Vec<String>, String>)
    ensures
        comma_items(s@).len() > 0 ==> r is Ok && views(r->Ok_0@) == comma_items(s@),
        comma_items(s@).len() == 0 ==> r is Err && r->Err_0@ == "capabilities cannot be empty"@,
{
    let items = comma_list(s);
    if items.len() == 0 {
        Err("capabilities cannot be empty".to_string())
    } else {
        Ok(items)
    }
}

/// What scoring an agent needs: its DID, then at least one capability.
pub fn score_request(agent: &str, capabilities: &str) -> (r: Result<Vec<String>, String>)
    ensures
        agent@.len() == 0 ==> r is Err && r->Err_0@ == "agent DID cannot be empty"@,
        agent@.len() > 0 && comma_items(capabilities@).len() == 0 ==> r is Err && r->Err_0@
            == "capabilities cannot be empty"@,
        agent@.len() > 0 && comma_items(capabilities@).len() > 0 ==> r is Ok && views(r->Ok_0@)
            == comma_items(capabilities@),
{
    if agent.is_empty() {
        return Err("agent DID cannot be empty".to_string());
    }
    required_capabilities(capabilities)
}


/// The position of the group for `subject`, or -1.
pub open spec fn group_index(g: Seq<(Seq<char>, Seq<Seq<char>>)>, subject: Seq<char>) -> int
    decreases g.len(),
{
    if g.len() == 0 {
        -1
    } else {
        let i = group_index(g.drop_last(), subject);
        if i >= 0 { i } else if g.last().0 == subject { g.len() - 1 } else { -1 }
    }
}

/// Knowledge-graph rows `(subject, object)` grouped by subject: one group
/// per subject, in the order subjects first appear, each holding its objects
/// in row order.
pub open spec fn grouped(rows: Seq<(Seq<char>, Seq<char>)>) -> Seq<(Seq<char>, Seq<Seq<char>>)>
    decreases rows.len(),
{
    if rows.len() == 0 {
        Seq::empty()
    } else {
        let g = grouped(rows.drop_last());
        let r = rows.last();
        let i = group_index(g, r.0);
        if i >= 0 { g.update(i, (g[i].0, g[i].1.push(r.1))) } else { g.push((r.0, seq![r.1])) }
    }
}

/// The view of grouped rows.
pub open spec fn groups_view(g: Seq<(String, Vec<String>)>) -> Seq<(Seq<char>, Seq<Seq<char>>)> {
    g.map_values(|x: (String, Vec<String>)| (x.0@, views(x.1@)))
}

proof fn lemma_group_index(g: Seq<(Seq<char>, Seq<Seq<char>>)>, s: Seq<char>)
    ensures
        -1 <= group_index(g, s) < g.len(),
        group_index(g, s) >= 0 ==> g[group_index(g, s)].0 == s,
        forall|j: int| 0 <= j < g.len() && g[j].0 == s ==> group_index(g, s) >= 0 && group_index(g, s) <= j,
    decreases g.len(),
{
    if g.len() > 0 {
        lemma_group_index(g.drop_last(), s);
        assert forall|j: int| 0 <= j < g.len() - 1 implies g.drop_last()[j] == g[j] by {}
    }
}

proof fn lemma_group_index_is(g: Seq<(Seq<char>, Seq<Seq<char>>)>, s: Seq<char>, x: int)
    requires
        -1 <= x < g.len(),
        x >= 0 ==> g[x].0 == s,
        forall|j: int| 0 <= j < g.len() && g[j].0 == s ==> x >= 0 && x <= j,
    ensures
        group_index(g, s) == x,
{
    lemma_group_index(g, s);
    let k = group_index(g, s);
    if k >= 0 && x >= 0 {
        assert(x <= k);
        assert(k <= x);
    }
}

/// Groups knowledge-graph rows by subject.
pub fn group_by_subject(rows: &Vec<(String, String)>) -> (g: Vec<(String, Vec<String>)>)
    ensures
        groups_view(g@) == grouped(rows@.map_values(|r: (String, String)| (r.0@, r.1@))),
{
    let ghost rv = rows@.map_values(|r: (String, String)| (r.0@, r.1@));
    let mut g: Vec<(String, Vec<String>)> = Vec::new();
    let mut i: usize = 0;
    while i < rows.len()
        invariant
            i <= rows@.len(),
            rv == rows@.map_values(|r: (String, String)| (r.0@, r.1@)),
            groups_view(g@) == grouped(rv.take(i as int)),
        decreases rows.len() - i,
    {
        let ghost before = groups_view(g@);
        proof {
            assert(rv.take(i as int + 1).drop_last() =~= rv.take(i as int));
            assert(rv.take(i as int + 1).last() == rv[i as int]);
            lemma_group_index(before, rv[i as int].0);
        }
        let subject = &rows[i].0;
        let mut j: usize = 0;
        let mut found: Option<usize> = None;
        while j < g.len()
            invariant_except_break
                found is None,
            invariant
                j <= g@.len(),
                before == groups_view(g@),
                forall|k: int| 0 <= k < j ==> g@[k].0@ != subject@,
            ensures
                found matches Some(k) ==> k < g@.len() && g@[k as int].0@ == subject@ && forall|q: int|
                    0 <= q < k ==> g@[q].0@ != subject@,
                found is None ==> forall|k: int| 0 <= k < g@.len() ==> g@[k].0@ != subject@,
            decreases g.len() - j,
        {
            if str_eq(g[j].0.as_str(), subject.as_str()) {
                found = Some(j);
                break;
            }
            j = j + 1;
        }
        match found {
            Some(k) => {
                proof {
                    assert forall|q: int| 0 <= q < before.len() && before[q].0 == subject@ implies k <= q by {
                        assert(before[q].0 == g@[q].0@);
                    }
                    assert(before[k as int].0 == g@[k as int].0@);
                    lemma_group_index_is(before, subject@, k as int);
                }
                let ghost old_g = g@;
                let (s0, mut objs) = g.remove(k);
                assert(s0@ == old_g[k as int].0@ && objs@ == old_g[k as int].1@);
                let item = rows[i].1.clone();
                let ghost old_objs = objs@;
                objs.push(item);
                assert(views(objs@) =~= views(old_objs).push(rv[i as int].1));
                let ghost new_entry = (s0, objs);
                g.insert(k, (s0, objs));
                proof {
                    assert(g@ =~= old_g.update(k as int, new_entry));
                    assert(groups_view(g@) =~= before.update(k as int, (before[k as int].0, before[k as int].1.push(rv[i as int].1))));
                }
            },
            None => {
                proof {
                    assert forall|q: int| 0 <= q < before.len() implies before[q].0 != subject@ by {
                        assert(before[q].0 == g@[q].0@);
                    }
                    lemma_group_index_is(before, subject@, -1);
                }
                let mut objs: Vec<String> = Vec::new();
                objs.push(rows[i].1.clone());
                g.push((subject.clone(), objs));
                proof {
                    assert(views(objs@) =~= seq![rv[i as int].1]);
                    assert(groups_view(g@) =~= before.push((rv[i as int].0, seq![rv[i as int].1])));
                }
            },
        }
        i = i + 1;
    }
    assert(rv.take(rows@.len() as int) =~= rv);
    g
}

/// Each subject has exactly one group.
pub proof fn law_one_group_per_subject(rows: Seq<(Seq<char>, Seq<char>)>)
    ensures
        forall|a: int, b: int| 0 <= a < b < grouped(rows).len() ==> grouped(rows)[a].0 != grouped(rows)[b].0,
    decreases rows.len(),
{
    if rows.len() > 0 {
        law_one_group_per_subject(rows.drop_last());
        let g = grouped(rows.drop_last());
        lemma_group_index(g, rows.last().0);
    }
}

} // verus!
