use agnetd::discovery::{parse_comma_list, required_capabilities, score_request};

#[test]
fn parse_comma_list_basic() {
    let list = parse_comma_list("a,b,c");
    assert_eq!(list, vec!["a", "b", "c"]);
}

#[test]
fn parse_comma_list_trims_whitespace() {
    let list = parse_comma_list(" a , b , c ");
    assert_eq!(list, vec!["a", "b", "c"]);
}

#[test]
fn parse_comma_list_empty_string() {
    let list = parse_comma_list("");
    assert!(list.is_empty());
}

#[test]
fn parse_comma_list_single() {
    let list = parse_comma_list("inference:llm");
    assert_eq!(list, vec!["inference:llm"]);
}

#[test]
fn parse_comma_list_filters_empty_segments() {
    let list = parse_comma_list("a,,b,,");
    assert_eq!(list, vec!["a", "b"]);
}

#[test]
fn search_needs_capabilities() {
    assert_eq!(required_capabilities(" , ,").unwrap_err(), "capabilities cannot be empty");
    assert_eq!(required_capabilities("x, y").unwrap(), vec!["x", "y"]);
}

#[test]
fn score_needs_agent_then_capabilities() {
    assert_eq!(score_request("", "").unwrap_err(), "agent DID cannot be empty");
    assert_eq!(score_request("did:a", "").unwrap_err(), "capabilities cannot be empty");
    assert_eq!(score_request("did:a", "nlp").unwrap(), vec!["nlp"]);
}

use agnetd::discovery::group_by_subject;

#[test]
fn rows_group_by_subject_in_first_seen_order() {
    let rows: Vec<(String, String)> = vec![("a", "x"), ("b", "y"), ("a", "z"), ("c", "w"), ("b", "v")]
        .into_iter()
        .map(|(s, o)| (s.to_string(), o.to_string()))
        .collect();
    let g = group_by_subject(&rows);
    assert_eq!(g.len(), 3);
    assert_eq!(g[0], ("a".to_string(), vec!["x".to_string(), "z".to_string()]));
    assert_eq!(g[1], ("b".to_string(), vec!["y".to_string(), "v".to_string()]));
    assert_eq!(g[2], ("c".to_string(), vec!["w".to_string()]));
    assert!(group_by_subject(&vec![]).is_empty());
}
