use agnetd::mesh::{console_event, handle_stdin_line, parse_stdin_line, post_request, StdinAction};
use agnetd::output::Output;

#[test]
fn parse_post_command() {
    let result = parse_stdin_line("post 1000 hello world");
    let (cmd, args) = result.unwrap();
    assert_eq!(cmd, "post");
    assert_eq!(args, vec!["1000", "hello", "world"]);
}

#[test]
fn parse_status_command() {
    let result = parse_stdin_line("status");
    let (cmd, args) = result.unwrap();
    assert_eq!(cmd, "status");
    assert!(args.is_empty());
}

#[test]
fn parse_empty_line() {
    assert!(parse_stdin_line("").is_none());
}

#[test]
fn parse_whitespace_only() {
    assert!(parse_stdin_line("   ").is_none());
}

#[test]
fn parse_help_command() {
    let result = parse_stdin_line("help");
    let (cmd, args) = result.unwrap();
    assert_eq!(cmd, "help");
    assert!(args.is_empty());
}

#[test]
fn parse_quit_command() {
    let result = parse_stdin_line("quit");
    let (cmd, args) = result.unwrap();
    assert_eq!(cmd, "quit");
    assert!(args.is_empty());
}

#[test]
fn parse_exit_alias() {
    let result = parse_stdin_line("exit");
    let (cmd, _args) = result.unwrap();
    assert_eq!(cmd, "exit");
}

#[test]
fn parse_case_insensitive() {
    let result = parse_stdin_line("STATUS");
    let (cmd, args) = result.unwrap();
    assert_eq!(cmd, "status");
    assert!(args.is_empty());
}

#[test]
fn parse_connect_with_multiaddr() {
    let result = parse_stdin_line("connect /ip4/1.2.3.4/tcp/4001/p2p/QmABC");
    let (cmd, args) = result.unwrap();
    assert_eq!(cmd, "connect");
    assert_eq!(args[0], "/ip4/1.2.3.4/tcp/4001/p2p/QmABC");
}

#[test]
fn parse_post_with_json_content() {
    let result = parse_stdin_line(r#"post 1000 {"title":"test"}"#);
    let (cmd, args) = result.unwrap();
    assert_eq!(cmd, "post");
    assert_eq!(args[0], "1000");
    assert!(args.len() >= 2);
}

#[test]
fn parse_single_connect_arg() {
    let result = parse_stdin_line("connect /ip4/127.0.0.1/tcp/41000");
    let (cmd, args) = result.unwrap();
    assert_eq!(cmd, "connect");
    assert_eq!(args, vec!["/ip4/127.0.0.1/tcp/41000"]);
}

#[test]
fn parse_splits_on_tabs_and_newlines() {
    let (cmd, args) = parse_stdin_line("\tPeers\n a  b ").unwrap();
    assert_eq!(cmd, "peers");
    assert_eq!(args, vec!["a", "b"]);
}

fn error_text(a: &StdinAction) -> String {
    match a {
        StdinAction::Reply(Output::Error(m)) => m.clone(),
        _ => panic!("expected an error reply"),
    }
}

fn kinds() -> Vec<u16> {
    vec![0, 1, 7, 1000, 9001]
}

fn status_text(a: &StdinAction) -> String {
    match a {
        StdinAction::Reply(Output::Status(m)) => m.clone(),
        StdinAction::Shutdown(Output::Status(m)) => m.clone(),
        _ => panic!("expected a status"),
    }
}

#[test]
fn blank_line_is_ignored() {
    assert!(matches!(handle_stdin_line("  \t ", true, &kinds()), StdinAction::Ignore));
}

#[test]
fn post_joins_content_with_spaces() {
    match handle_stdin_line("post 1000 hello   world", false, &kinds()) {
        StdinAction::Publish { kind, content } => {
            assert_eq!(kind, 1000);
            assert_eq!(content, "hello world");
        }
        _ => panic!("expected a publish"),
    }
}

#[test]
fn post_needs_kind_and_content() {
    let a = handle_stdin_line("post 1000", false, &kinds());
    assert_eq!(error_text(&a), "usage: post <kind_u16> <content>");
}

#[test]
fn post_rejects_bad_kind() {
    let a = post_request(&vec!["70000".to_string(), "x".to_string()], &kinds());
    assert_eq!(error_text(&a), "invalid kind number: 70000");
    let b = post_request(&vec!["-1".to_string(), "x".to_string()], &kinds());
    assert_eq!(error_text(&b), "invalid kind number: -1");
    match post_request(&vec!["+7".to_string(), "x".to_string()], &kinds()) {
        StdinAction::Publish { kind, .. } => assert_eq!(kind, 7),
        _ => panic!("a leading plus is accepted"),
    }
}

#[test]
fn status_and_peers_depend_on_mesh() {
    assert_eq!(status_text(&handle_stdin_line("status", false, &kinds())), "Mesh not running");
    assert_eq!(
        status_text(&handle_stdin_line("status", true, &kinds())),
        "Mesh is running — use 'agnetd mesh status' for full details"
    );
    assert_eq!(
        status_text(&handle_stdin_line("peers", true, &kinds())),
        "Mesh is running — use 'agnetd mesh peers' for peer list"
    );
}

#[test]
fn connect_dials_first_argument() {
    match handle_stdin_line("connect /ip4/1.2.3.4/tcp/1 extra", true, &kinds()) {
        StdinAction::Dial(a) => assert_eq!(a, "/ip4/1.2.3.4/tcp/1"),
        _ => panic!("expected a dial"),
    }
    assert_eq!(error_text(&handle_stdin_line("connect", true, &kinds())), "usage: connect <multiaddr>");
}

#[test]
fn quit_and_exit_shut_down() {
    assert!(matches!(handle_stdin_line("QUIT", true, &kinds()), StdinAction::Shutdown(_)));
    assert_eq!(status_text(&handle_stdin_line("exit", true, &kinds())), "Shutting down...");
}

#[test]
fn help_lists_six_commands() {
    match handle_stdin_line("help", false, &kinds()) {
        StdinAction::Reply(Output::Pairs(p)) => {
            assert_eq!(p.len(), 6);
            assert_eq!(p[0].0, "post <kind> <text>");
            assert_eq!(p[5].1, "Shutdown mesh and exit");
        }
        _ => panic!("expected the help pairs"),
    }
}

#[test]
fn unknown_command_is_named() {
    assert_eq!(
        error_text(&handle_stdin_line("Frobnicate x", true, &kinds())),
        "unknown command: frobnicate — type 'help' for commands"
    );
}

#[test]
fn post_refuses_unknown_kind() {
    let a = handle_stdin_line("post 4242 hello", true, &kinds());
    assert_eq!(error_text(&a), "unknown kind: 4242");
    let b = post_request(&vec!["+0042".to_string(), "x".to_string()], &kinds());
    assert_eq!(error_text(&b), "unknown kind: 42");
}

#[test]
fn console_post_appends_next_event() {
    let e = console_event("did:key:a", 0, 1000, "hello world".to_string());
    assert_eq!(e.sequence, 1);
    assert_eq!(e.kind, 1000);
    assert_eq!(e.content, "hello world");
    assert_eq!(e.agent_did, "did:key:a");
    assert_eq!(console_event("did:key:a", 41, 9001, "x".to_string()).sequence, 42);
}
