//! The knowledge graph commands: the capability lists they take and the
//! checks they make before anything is written to the graph.
use vstd::prelude::*;
use crate::text::{comma_items, comma_list, views};

verus! {

/// The capabilities of a comma-separated list: each item trimmed, empty
/// items dropped.
pub fn parse_capabilities(input: &str) -> (caps: Vec<String>)
    ensures
        views(caps@) == comma_items(input@),
{
    comma_list(input)
}

/// A query of the knowledge graph by triple pattern.
pub struct KnowledgeQuery {
    pub subject: Option<String>,
    pub predicate: Option<String>,
    pub object: Option<String>,
    pub graph: Option<String>,
    pub limit: usize,
}

/// How many triples a query returns when it gives no limit.
pub fn default_limit() -> (n: usize)
    ensures
        n == 20,
{
    20
}

/// A query that names no part of the pattern matches nothing: the graph is
/// not scanned whole.
pub fn is_unbounded(q: &KnowledgeQuery) -> (b: bool)
    ensures
        b == (q.subject is None && q.predicate is None && q.object is None && q.graph is None),
{
    q.subject.is_none() && q.predicate.is_none() && q.object.is_none() && q.graph.is_none()
}

/// The one-term list of a named part of a pattern, the empty list of one
/// left open.
pub open spec fn named_terms(part: Option<String>) -> Seq<Seq<char>> {
    match part {
        Some(s) => seq![s@],
        None => Seq::empty(),
    }
}

/// The strings a query hands the dictionary, in pattern order: subject,
/// predicate, object, graph, each only where the query names it.
pub open spec fn query_terms(q: KnowledgeQuery) -> Seq<Seq<char>> {
    named_terms(q.subject) + named_terms(q.predicate) + named_terms(q.object) + named_terms(
        q.graph,
    )
}

/// The strings to hash for a query's pattern.
pub fn pattern_terms(q: &KnowledgeQuery) -> (terms: Vec<String>)
    ensures
        views(terms@) == query_terms(*q),
{
    let mut terms: Vec<String> = Vec::new();
    if let Some(s) = &q.subject {
        terms.push(s.clone());
    }
    if let Some(p) = &q.predicate {
        terms.push(p.clone());
    }
    if let Some(o) = &q.object {
        terms.push(o.clone());
    }
    if let Some(g) = &q.graph {
        terms.push(g.clone());
    }
    assert(views(terms@) =~= query_terms(*q));
    terms
}

/// A triple pattern over dictionary hashes; a part left open matches
/// anything.
#[derive(Clone, Copy, PartialEq, Eq, Structural, Debug)]
pub struct HashPattern {
    pub subject: Option<u64>,
    pub predicate: Option<u64>,
    pub object: Option<u64>,
    pub graph: Option<u64>,
}

/// How many terms a named or open part contributes.
pub open spec fn term_count(part: Option<String>) -> int {
    if part is Some { 1 } else { 0 }
}

/// The hash at `idx` for a named part, nothing for an open one.
pub open spec fn slot(part: Option<String>, idx: int, hashes: Seq<u64>) -> Option<u64> {
    if part is Some { Some(hashes[idx]) } else { None }
}

/// The pattern a query stands for, given the hashes of its terms in the
/// order of `query_terms`.
pub open spec fn hashed_pattern(q: KnowledgeQuery, hashes: Seq<u64>) -> HashPattern {
    let s = term_count(q.subject);
    let p = term_count(q.predicate);
    let o = term_count(q.object);
    HashPattern {
        subject: slot(q.subject, 0, hashes),
        predicate: slot(q.predicate, s, hashes),
        object: slot(q.object, s + p, hashes),
        graph: slot(q.graph, s + p + o, hashes),
    }
}

/// Hands each named part of the query its hash: the hashes come back in the
/// order the terms went in, so each part takes the next one.
pub fn pattern_from_hashes(q: &KnowledgeQuery, hashes: &Vec<u64>) -> (pat: HashPattern)
    requires
        hashes@.len() >= query_terms(*q).len(),
    ensures
        pat == hashed_pattern(*q, hashes@),
{
    let mut idx: usize = 0;
    let subject = if q.subject.is_some() {
        let h = hashes[idx];
        idx = idx + 1;
        Some(h)
    } else {
        None
    };
    let predicate = if q.predicate.is_some() {
        let h = hashes[idx];
        idx = idx + 1;
        Some(h)
    } else {
        None
    };
    let object = if q.object.is_some() {
        let h = hashes[idx];
        idx = idx + 1;
        Some(h)
    } else {
        None
    };
    let graph = if q.graph.is_some() {
        Some(hashes[idx])
    } else {
        None
    };
    HashPattern { subject, predicate, object, graph }
}

pub struct RegisterAgentRequest {
    pub did: String,
    pub capabilities: String,
}

pub struct RegisterModelRequest {
    pub did: String,
    pub cid: String,
    pub parent: Option<String>,
}

pub struct RegisterBountyRequest {
    pub id: String,
    pub capabilities: String,
}

pub struct KnowledgeQueryResult {
    pub subject: String,
    pub predicate: String,
    pub object: String,
    pub graph: String,
}

pub struct AgentRegistrationResponse {
    pub did: String,
    pub capabilities: Vec<String>,
    pub triples_inserted: usize,
}

pub struct ModelRegistrationResponse {
    pub owner: String,
    pub cid: String,
    pub parent: Option<String>,
    pub triples_inserted: usize,
}

pub struct BountyRegistrationResponse {
    pub id: String,
    pub required_capabilities: Vec<String>,
    pub triples_inserted: usize,
}

pub struct OntologyEntry {
    pub name: String,
    pub uri: String,
}

/// Registering an agent needs its DID.
pub fn check_register_agent(did: &str) -> (r: Result<(), String>)
    ensures
        r is Ok <==> did@.len() > 0,
        r is Err ==> r->Err_0@ == "agent DID cannot be empty"@,
{
    if did.is_empty() {
        Err("agent DID cannot be empty".to_string())
    } else {
        Ok(())
    }
}

/// Registering a model needs its owner and its CID, checked in that order.
pub fn check_register_model(did: &str, cid: &str) -> (r: Result<(), String>)
    ensures
        r is Ok <==> did@.len() > 0 && cid@.len() > 0,
        did@.len() == 0 ==> r is Err && r->Err_0@ == "owner DID cannot be empty"@,
        did@.len() > 0 && cid@.len() == 0 ==> r is Err && r->Err_0@ == "model CID cannot be empty"@,
{
    if did.is_empty() {
        Err("owner DID cannot be empty".to_string())
    } else if cid.is_empty() {
        Err("model CID cannot be empty".to_string())
    } else {
        Ok(())
    }
}

/// Registering a bounty needs its id.
pub fn check_register_bounty(id: &str) -> (r: Result<(), String>)
    ensures
        r is Ok <==> id@.len() > 0,
        r is Err ==> r->Err_0@ == "bounty ID cannot be empty"@,
{
    if id.is_empty() {
        Err("bounty ID cannot be empty".to_string())
    } else {
        Ok(())
    }
}

/// Joining a training job needs the agent and the job, checked in that order.
pub fn check_join_job(did: &str, job_id: &str) -> (r: Result<(), String>)
    ensures
        r is Ok <==> did@.len() > 0 && job_id@.len() > 0,
        did@.len() == 0 ==> r is Err && r->Err_0@ == "agent DID cannot be empty"@,
        did@.len() > 0 && job_id@.len() == 0 ==> r is Err && r->Err_0@ == "job ID cannot be empty"@,
{
    if did.is_empty() {
        Err("agent DID cannot be empty".to_string())
    } else if job_id.is_empty() {
        Err("job ID cannot be empty".to_string())
    } else {
        Ok(())
    }
}

} // verus!
