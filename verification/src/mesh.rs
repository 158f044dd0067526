//! The interactive mesh console: how a line typed on standard input becomes a
//! command, and what each command answers or asks the mesh to do.
use vstd::prelude::*;
use crate::output::{Output, OutputView, pairs_view};
use crate::text::{
    concat, decimal, decimal_string, join, join_strings, parse_unsigned, parse_unsigned_max, push_all,
    split_words, str_eq, str_lowercase, to_lowercase, views, words,
};

verus! {

broadcast use vstd::string::group_string_axioms;

/// The command word (lower-cased) and the arguments of a console line, or
/// `None` for a line with no words.
pub open spec fn parsed_line(line: Seq<char>) -> Option<(Seq<char>, Seq<Seq<char>>)> {
    let w = words(line);
    if w.len() == 0 {
        None
    } else {
        Some((str_lowercase(w[0]), w.drop_first()))
    }
}

/// Splits a console line into its lower-cased command word and its arguments.
pub fn parse_stdin_line(line: &str) -> (r: Option<(String, Vec<String>)>)
    ensures
        match r {
            None => parsed_line(line@) is None,
            Some((cmd, args)) => parsed_line(line@) == Some((cmd@, views(args@))),
        },
{
    let parts = split_words(line);
    if parts.len() == 0 {
        return None;
    }
    let cmd = to_lowercase(parts[0].as_str());
    let mut args: Vec<String> = Vec::new();
    let mut i: usize = 1;
    while i < parts.len()
        invariant
            1 <= i <= parts.len(),
            views(args@) == views(parts@).subrange(1, i as int),
        decreases parts.len() - i,
    {
        let ghost before = args@;
        let item = parts[i].clone();
        args.push(item);
        assert(views(args@) =~= views(before).push(parts@[i as int]@));
        assert(views(args@) =~= views(parts@).subrange(1, i as int + 1));
        i = i + 1;
    }
    assert(views(parts@).subrange(1, parts@.len() as int) =~= views(parts@).drop_first());
    Some((cmd, args))
}

/// What the console does with a line.
pub enum StdinAction {
    /// Nothing: the line was blank.
    Ignore,
    /// Show this to the user.
    Reply(Output),
    /// Publish a feed event of this kind number with this content.
    Publish { kind: u16, content: String },
    /// Dial the peer at this address.
    Dial(String),
    /// Stop the mesh, after showing this.
    Shutdown(Output),
}

/// The mathematical content of a [`StdinAction`].
pub enum StdinActionView {
    Ignore,
    Reply(OutputView),
    Publish { kind: u16, content: Seq<char> },
    Dial(Seq<char>),
    Shutdown(OutputView),
}

impl View for StdinAction {
    type V = StdinActionView;

    open spec fn view(&self) -> StdinActionView {
        match self {
            StdinAction::Ignore => StdinActionView::Ignore,
            StdinAction::Reply(o) => StdinActionView::Reply(o@),
            StdinAction::Publish { kind, content } => StdinActionView::Publish { kind: *kind, content: content@ },
            StdinAction::Dial(a) => StdinActionView::Dial(a@),
            StdinAction::Shutdown(o) => StdinActionView::Shutdown(o@),
        }
    }
}

/// The console's help: each command with what it does.
pub open spec fn help_pairs() -> Seq<(Seq<char>, Seq<char>)> {
    seq![
        ("post <kind> <text>"@, "Create and publish a feed event"@),
        ("status"@, "Show mesh status"@),
        ("peers"@, "List connected peers"@),
        ("connect <addr>"@, "Dial a peer"@),
        ("help"@, "Show this help"@),
        ("quit"@, "Shutdown mesh and exit"@),
    ]
}

/// What `post` does with its arguments: the first is the kind number, which
/// must be one of the feed's event kinds `known`; the rest, joined by spaces,
/// is the content.
pub open spec fn post_action(args: Seq<Seq<char>>, known: Seq<u16>) -> StdinActionView {
    if args.len() < 2 {
        StdinActionView::Reply(OutputView::Error("usage: post <kind_u16> <content>"@))
    } else {
        match parse_unsigned(args[0], 65535) {
            None => StdinActionView::Reply(OutputView::Error("invalid kind number: "@ + args[0])),
            Some(k) => if known.contains(k as u16) {
                StdinActionView::Publish { kind: k as u16, content: join(args.drop_first(), " "@) }
            } else {
                StdinActionView::Reply(OutputView::Error("unknown kind: "@ + decimal(k as nat)))
            },
        }
    }
}

/// What the console does with a line, given whether the mesh is running and
/// the feed's event kinds `known`.
pub open spec fn stdin_action(line: Seq<char>, running: bool, known: Seq<u16>) -> StdinActionView {
    match parsed_line(line) {
        None => StdinActionView::Ignore,
        Some((cmd, args)) => {
            if cmd == "post"@ {
                post_action(args, known)
            } else if cmd == "status"@ {
                StdinActionView::Reply(OutputView::Status(
                    if running { "Mesh is running — use 'agnetd mesh status' for full details"@ } else { "Mesh not running"@ },
                ))
            } else if cmd == "peers"@ {
                StdinActionView::Reply(OutputView::Status(
                    if running { "Mesh is running — use 'agnetd mesh peers' for peer list"@ } else { "Mesh not running"@ },
                ))
            } else if cmd == "connect"@ {
                if args.len() == 0 {
                    StdinActionView::Reply(OutputView::Error("usage: connect <multiaddr>"@))
                } else {
                    StdinActionView::Dial(args[0])
                }
            } else if cmd == "help"@ {
                StdinActionView::Reply(OutputView::Pairs(help_pairs()))
            } else if cmd == "quit"@ || cmd == "exit"@ {
                StdinActionView::Shutdown(OutputView::Status("Shutting down..."@))
            } else {
                StdinActionView::Reply(OutputView::Error(
                    "unknown command: "@ + cmd + " — type 'help' for commands"@,
                ))
            }
        },
    }
}

fn status_reply(s: &str) -> (a: StdinAction)
    ensures
        a@ == StdinActionView::Reply(OutputView::Status(s@)),
{
    StdinAction::Reply(Output::Status(s.to_string()))
}

fn error_reply(s: &str) -> (a: StdinAction)
    ensures
        a@ == StdinActionView::Reply(OutputView::Error(s@)),
{
    StdinAction::Reply(Output::Error(s.to_string()))
}

fn help_output() -> (o: Output)
    ensures
        o@ == OutputView::Pairs(help_pairs()),
{
    let mut p: Vec<(String, String)> = Vec::new();
    p.push(("post <kind> <text>".to_string(), "Create and publish a feed event".to_string()));
    p.push(("status".to_string(), "Show mesh status".to_string()));
    p.push(("peers".to_string(), "List connected peers".to_string()));
    p.push(("connect <addr>".to_string(), "Dial a peer".to_string()));
    p.push(("help".to_string(), "Show this help".to_string()));
    p.push(("quit".to_string(), "Shutdown mesh and exit".to_string()));
    assert(pairs_view(p@) =~= help_pairs());
    Output::Pairs(p)
}

/// Whether `k` is one of the kinds in `known`.
fn is_known_kind(k: u16, known: &Vec<u16>) -> (b: bool)
    ensures
        b == known@.contains(k),
{
    let mut i: usize = 0;
    while i < known.len()
        invariant
            i <= known@.len(),
            forall|j: int| 0 <= j < i ==> known@[j] != k,
        decreases known.len() - i,
    {
        if known[i] == k {
            assert(known@[i as int] == k);
            return true;
        }
        i = i + 1;
    }
    false
}

/// The action of `post` with these arguments, given the feed's event kinds
/// `known`.
pub fn post_request(args: &Vec<String>, known: &Vec<u16>) -> (a: StdinAction)
    ensures
        a@ == post_action(views(args@), known@),
{
    if args.len() < 2 {
        return error_reply("usage: post <kind_u16> <content>");
    }
    assert(views(args@)[0] == args@[0]@);
    match parse_unsigned_max(args[0].as_str(), 65535) {
        None => StdinAction::Reply(Output::Error(concat("invalid kind number: ", args[0].as_str()))),
        Some(k) => {
            let kind: u16 = k as u16;
            if !is_known_kind(kind, known) {
                let msg = concat("unknown kind: ", decimal_string(k as u128).as_str());
                return StdinAction::Reply(Output::Error(msg));
            }
            let mut rest: Vec<String> = Vec::new();
            let mut i: usize = 1;
            while i < args.len()
                invariant
                    1 <= i <= args.len(),
                    views(rest@) == views(args@).subrange(1, i as int),
                decreases args.len() - i,
            {
                let ghost before = rest@;
                let item = args[i].clone();
                rest.push(item);
                assert(views(rest@) =~= views(before).push(args@[i as int]@));
                assert(views(rest@) =~= views(args@).subrange(1, i as int + 1));
                i = i + 1;
            }
            assert(views(args@).subrange(1, args@.len() as int) =~= views(args@).drop_first());
            let content = join_strings(&rest, " ");
            StdinAction::Publish { kind, content }
        },
    }
}

/// Decides what to do with a console line, given whether the mesh is
/// running and the feed's event kinds `known`.
pub fn handle_stdin_line(line: &str, running: bool, known: &Vec<u16>) -> (a: StdinAction)
    ensures
        a@ == stdin_action(line@, running, known@),
{
    let (cmd, args) = match parse_stdin_line(line) {
        None => return StdinAction::Ignore,
        Some(p) => p,
    };
    let c = cmd.as_str();
    if str_eq(c, "post") {
        post_request(&args, known)
    } else if str_eq(c, "status") {
        if running {
            status_reply("Mesh is running — use 'agnetd mesh status' for full details")
        } else {
            status_reply("Mesh not running")
        }
    } else if str_eq(c, "peers") {
        if running {
            status_reply("Mesh is running — use 'agnetd mesh peers' for peer list")
        } else {
            status_reply("Mesh not running")
        }
    } else if str_eq(c, "connect") {
        if args.len() == 0 {
            error_reply("usage: connect <multiaddr>")
        } else {
            StdinAction::Dial(args[0].clone())
        }
    } else if str_eq(c, "help") {
        StdinAction::Reply(help_output())
    } else if str_eq(c, "quit") || str_eq(c, "exit") {
        StdinAction::Shutdown(Output::Status("Shutting down...".to_string()))
    } else {
        let mut m = concat("unknown command: ", c);
        push_all(&mut m, " — type 'help' for commands");
        StdinAction::Reply(Output::Error(m))
    }
}

/// A blank line does nothing.
pub proof fn law_blank_lines_are_ignored(line: Seq<char>, running: bool, known: Seq<u16>)
    requires
        words(line).len() == 0,
    ensures
        stdin_action(line, running, known) == StdinActionView::Ignore,
{
}

/// The event a console `post` appends to an agent's chain: the next
/// sequence number, the kind and the content.
pub struct ConsoleEvent {
    pub agent_did: String,
    pub sequence: u64,
    pub kind: u16,
    pub content: String,
}

/// The event a console `post` by `did` appends after its latest event
/// `latest` (0 when it has none): number `latest + 1`, of the posted kind,
/// holding the posted content.
pub fn console_event(did: &str, latest: u64, kind: u16, content: String) -> (e: ConsoleEvent)
    requires
        latest < u64::MAX,
    ensures
        e.agent_did@ == did@,
        e.sequence == latest + 1,
        e.kind == kind,
        e.content@ == content@,
{
    let sequence: u64 = if latest == 0 { 1 } else { latest + 1 };
    ConsoleEvent { agent_did: did.to_string(), sequence, kind, content }
}

/// A console `post` of a known kind publishes that kind with the rest of the
/// line, joined by single spaces; one of an unknown kind is refused and
/// publishes nothing.
pub proof fn law_post_publishes_known_kinds(args: Seq<Seq<char>>, known: Seq<u16>)
    requires
        args.len() >= 2,
        parse_unsigned(args[0], 65535) is Some,
    ensures
        ({
            let k = parse_unsigned(args[0], 65535)->0;
            &&& known.contains(k as u16) ==> post_action(args, known) == StdinActionView::Publish {
                kind: k as u16,
                content: join(args.drop_first(), " "@),
            }
            &&& !known.contains(k as u16) ==> post_action(args, known) == StdinActionView::Reply(
                OutputView::Error("unknown kind: "@ + decimal(k as nat)),
            )
        }),
{
}


// ---------------------------------------------------------------------------
// HTTP API
// ---------------------------------------------------------------------------

/// The address a connect request dials.
pub struct ConnectRequest {
    pub addr: String,
}

/// The peer a disconnect request drops.
pub struct DisconnectRequest {
    pub peer_id: String,
}

pub struct PeersQuery {
    pub verbose: Option<bool>,
}

pub struct MeshStatusResponse {
    pub running: bool,
    pub local_peer_id: Option<String>,
    pub listeners: Vec<String>,
    pub connected_peers: Vec<String>,
    pub subscribed_topics: Vec<String>,
}

pub struct PeersResponse {
    pub peers: Vec<String>,
    pub count: usize,
}

pub struct ConnectResponse {
    pub addr: String,
    pub status: String,
}

pub struct DisconnectResponse {
    pub peer_id: String,
    pub status: String,
}

/// The status of a mesh that is not running.
pub fn stopped_status() -> (r: MeshStatusResponse)
    ensures
        !r.running,
        r.local_peer_id is None,
        r.listeners@.len() == 0 && r.connected_peers@.len() == 0 && r.subscribed_topics@.len() == 0,
{
    MeshStatusResponse {
        running: false,
        local_peer_id: None,
        listeners: Vec::new(),
        connected_peers: Vec::new(),
        subscribed_topics: Vec::new(),
    }
}

/// The peer list, with its count.
pub fn peers_response(peers: Vec<String>) -> (r: PeersResponse)
    ensures
        r.peers@ == peers@,
        r.count == peers@.len(),
{
    let count = peers.len();
    PeersResponse { peers, count }
}

/// What a connect request answers once the dial is under way.
pub fn connect_response(addr: String) -> (r: ConnectResponse)
    ensures
        r.addr@ == addr@,
        r.status@ == "dialing"@,
{
    ConnectResponse { addr, status: "dialing".to_string() }
}

/// What a disconnect request answers.
pub fn disconnect_response(peer_id: String) -> (r: DisconnectResponse)
    ensures
        r.peer_id@ == peer_id@,
        r.status@ == "disconnected"@,
{
    DisconnectResponse { peer_id, status: "disconnected".to_string() }
}

} // verus!
