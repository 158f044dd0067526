//! The terminal dashboard's state: panel selection and scrolling, the input
//! prompts, the alert rules, and the formatting of times, states and balances.
use vstd::prelude::*;
use crate::text::{
    decimal, decimal_string, pad_left, pop_char, prefix, push_all, push_char, push_decimal,
    push_repeat, repeat, str_eq, take_chars,
};

verus! {

broadcast use vstd::string::group_string_axioms;

/// The number of panels.
pub const NUM_PANELS: usize = 5;

/// Terminals narrower than this get the stacked layout.
pub const NARROW_BREAKPOINT: u16 = 80;

/// A key press, as the terminal reports it.
#[derive(Clone, Copy, PartialEq, Eq, Structural, Debug)]
pub enum Key {
    Char(char),
    Tab,
    BackTab,
    Up,
    Down,
    Enter,
    Esc,
    Backspace,
    Other,
}

#[derive(Clone, Copy, PartialEq, Eq, Structural, Debug)]
pub enum PromptKind {
    BountyTitle,
    BountyReward,
    FeedContent,
}

#[derive(Clone, Copy, PartialEq, Eq, Structural, Debug)]
pub enum ModalKind {
    Help,
}

#[derive(Clone, Copy, PartialEq, Eq, Structural, Debug)]
pub enum InputMode {
    Normal,
    Prompt(PromptKind),
    Modal(ModalKind),
}

#[derive(Clone, Copy, PartialEq, Eq, Structural, Debug)]
pub enum AlertSeverity {
    Error,
    Warning,
}

/// Terminal colors used by the dashboard.
#[derive(Clone, Copy, PartialEq, Eq, Structural, Debug)]
pub enum Color {
    Red,
    Yellow,
    Green,
    Blue,
    Magenta,
    Cyan,
    DarkGray,
    White,
}

pub struct Alert {
    pub severity: AlertSeverity,
    pub message: String,
    pub target_panel: usize,
}

/// The status of the mesh, when it runs.
pub struct MeshStatus {
    pub running: bool,
    pub local_peer_id: String,
    pub connected_peers: Vec<String>,
    pub listeners: Vec<String>,
    pub subscribed_topics: Vec<String>,
}

pub struct TokenBalanceRow {
    pub token_type: String,
    pub balance: u128,
    pub staked: u128,
}

pub struct FeedEventSummary {
    pub kind: u16,
    pub author: String,
    pub content_preview: String,
    pub timestamp: u64,
}

pub struct BountySummary {
    pub id: String,
    pub reward: u64,
    pub state: String,
    pub deadline: u64,
}

pub struct TrainingJobSummary {
    pub id: String,
    pub description: String,
    pub progress: u16,
}

pub struct DashboardApp {
    pub selected_panel: usize,
    pub scroll_offsets: Vec<u16>,
    pub content_heights: Vec<u16>,
    pub mesh_status: Option<MeshStatus>,
    pub token_balances: Vec<TokenBalanceRow>,
    pub reputation_score: u64,
    pub feed_events: Vec<FeedEventSummary>,
    pub active_bounties: Vec<BountySummary>,
    pub training_jobs: Vec<TrainingJobSummary>,
    pub should_quit: bool,
    pub input_mode: InputMode,
    pub prompt_buffer: String,
    pub pending_bounty_title: Option<String>,
    pub alerts: Vec<Alert>,
}

/// The part of the dashboard state that key presses change.
pub struct UiState {
    pub selected_panel: int,
    pub scroll_offsets: Seq<u16>,
    pub should_quit: bool,
    pub input_mode: InputMode,
    pub prompt_buffer: Seq<char>,
    pub pending_bounty_title: Option<Seq<char>>,
}

pub open spec fn opt_view(o: Option<String>) -> Option<Seq<char>> {
    match o {
        Some(s) => Some(s@),
        None => None,
    }
}

/// A well-formed UI state: a valid panel and one scroll offset per panel.
pub open spec fn ui_wf(u: UiState) -> bool {
    0 <= u.selected_panel < 5 && u.scroll_offsets.len() == 5
}

/// What a key press does in normal mode.
pub open spec fn normal_step(u: UiState, heights: Seq<u16>, key: Key) -> UiState {
    let sel = u.selected_panel;
    match key {
        Key::Char(c) => if c == 'q' {
            UiState { should_quit: true, ..u }
        } else if c == '?' {
            UiState { input_mode: InputMode::Modal(ModalKind::Help), ..u }
        } else if c == 'n' {
            UiState {
                input_mode: InputMode::Prompt(PromptKind::BountyTitle),
                prompt_buffer: Seq::empty(),
                pending_bounty_title: None,
                ..u
            }
        } else if c == 'f' {
            UiState {
                input_mode: InputMode::Prompt(PromptKind::FeedContent),
                prompt_buffer: Seq::empty(),
                ..u
            }
        } else {
            u
        },
        Key::Tab => UiState { selected_panel: (sel + 1) % 5, ..u },
        Key::BackTab => UiState { selected_panel: (sel + 4) % 5, ..u },
        Key::Down => {
            let max_scroll = heights[sel].saturating_sub(1);
            let next = u.scroll_offsets[sel].saturating_add(1);
            let v = if next <= max_scroll { next } else { max_scroll };
            UiState { scroll_offsets: u.scroll_offsets.update(sel, v), ..u }
        },
        Key::Up => UiState {
            scroll_offsets: u.scroll_offsets.update(sel, u.scroll_offsets[sel].saturating_sub(1)),
            ..u
        },
        _ => u,
    }
}

/// What a key press does while a prompt of the given kind is open.
pub open spec fn prompt_step(u: UiState, kind: PromptKind, key: Key) -> UiState {
    match key {
        Key::Esc => UiState {
            input_mode: InputMode::Normal,
            prompt_buffer: Seq::empty(),
            pending_bounty_title: None,
            ..u
        },
        Key::Enter => match kind {
            PromptKind::BountyTitle => if u.prompt_buffer.len() > 0 {
                UiState {
                    pending_bounty_title: Some(u.prompt_buffer),
                    prompt_buffer: Seq::empty(),
                    input_mode: InputMode::Prompt(PromptKind::BountyReward),
                    ..u
                }
            } else {
                u
            },
            PromptKind::BountyReward => UiState {
                prompt_buffer: Seq::empty(),
                pending_bounty_title: None,
                input_mode: InputMode::Normal,
                ..u
            },
            PromptKind::FeedContent => UiState {
                prompt_buffer: Seq::empty(),
                input_mode: InputMode::Normal,
                ..u
            },
        },
        Key::Backspace => UiState {
            prompt_buffer: if u.prompt_buffer.len() > 0 {
                u.prompt_buffer.drop_last()
            } else {
                u.prompt_buffer
            },
            ..u
        },
        Key::Char(c) => UiState { prompt_buffer: u.prompt_buffer.push(c), ..u },
        _ => u,
    }
}

/// What a key press does while the help modal is open.
pub open spec fn modal_step(u: UiState, key: Key) -> UiState {
    match key {
        Key::Char(c) => if c == '?' || c == 'q' {
            UiState { input_mode: InputMode::Normal, ..u }
        } else {
            u
        },
        Key::Esc => UiState { input_mode: InputMode::Normal, ..u },
        _ => u,
    }
}

/// What a key press does, given the panels' content heights.
pub open spec fn key_step(u: UiState, heights: Seq<u16>, key: Key) -> UiState {
    match u.input_mode {
        InputMode::Normal => normal_step(u, heights, key),
        InputMode::Prompt(kind) => prompt_step(u, kind, key),
        InputMode::Modal(_) => modal_step(u, key),
    }
}

impl DashboardApp {
    pub open spec fn ui(&self) -> UiState {
        UiState {
            selected_panel: self.selected_panel as int,
            scroll_offsets: self.scroll_offsets@,
            should_quit: self.should_quit,
            input_mode: self.input_mode,
            prompt_buffer: self.prompt_buffer@,
            pending_bounty_title: opt_view(self.pending_bounty_title),
        }
    }

    pub open spec fn wf(&self) -> bool {
        &&& ui_wf(self.ui())
        &&& self.content_heights@.len() == 5
    }

    /// The fields that key presses leave alone are the same in `self` and `other`.
    pub open spec fn same_data(&self, other: &DashboardApp) -> bool {
        &&& self.content_heights == other.content_heights
        &&& self.mesh_status == other.mesh_status
        &&& self.token_balances == other.token_balances
        &&& self.reputation_score == other.reputation_score
        &&& self.feed_events == other.feed_events
        &&& self.active_bounties == other.active_bounties
        &&& self.training_jobs == other.training_jobs
        &&& self.alerts == other.alerts
    }

    /// A dashboard on the first panel, with nothing loaded, in normal mode.
    pub fn new() -> (app: Self)
        ensures
            app.wf(),
            app.selected_panel == 0,
            app.scroll_offsets@ == seq![0u16, 0u16, 0u16, 0u16, 0u16],
            app.content_heights@ == seq![0u16, 0u16, 0u16, 0u16, 0u16],
            app.mesh_status is None,
            app.token_balances.len() == 4,
            app.token_balances@[0].token_type@ == "Compute"@,
            app.token_balances@[1].token_type@ == "Training"@,
            app.token_balances@[2].token_type@ == "Bandwidth"@,
            app.token_balances@[3].token_type@ == "Storage"@,
            forall|i: int| 0 <= i < 4 ==> (#[trigger] app.token_balances@[i]).balance == 0
                && app.token_balances@[i].staked == 0,
            app.reputation_score == 0,
            app.feed_events.len() == 0,
            app.active_bounties.len() == 0,
            app.training_jobs.len() == 0,
            !app.should_quit,
            app.input_mode == InputMode::Normal,
            app.prompt_buffer@.len() == 0,
            app.pending_bounty_title is None,
            app.alerts.len() == 0,
    {
        let zeros = vec![0u16, 0u16, 0u16, 0u16, 0u16];
        let heights = vec![0u16, 0u16, 0u16, 0u16, 0u16];
        let token_balances = vec![
            TokenBalanceRow { token_type: "Compute".to_string(), balance: 0, staked: 0 },
            TokenBalanceRow { token_type: "Training".to_string(), balance: 0, staked: 0 },
            TokenBalanceRow { token_type: "Bandwidth".to_string(), balance: 0, staked: 0 },
            TokenBalanceRow { token_type: "Storage".to_string(), balance: 0, staked: 0 },
        ];
        DashboardApp {
            selected_panel: 0,
            scroll_offsets: zeros,
            content_heights: heights,
            mesh_status: None,
            token_balances,
            reputation_score: 0,
            feed_events: Vec::new(),
            active_bounties: Vec::new(),
            training_jobs: Vec::new(),
            should_quit: false,
            input_mode: InputMode::Normal,
            prompt_buffer: String::new(),
            pending_bounty_title: None,
            alerts: Vec::new(),
        }
    }

    /// Handles a key press according to the current input mode.
    pub fn handle_key(&mut self, key: Key)
        requires
            old(self).wf(),
        ensures
            final(self).wf(),
            final(self).same_data(old(self)),
            final(self).ui() == key_step(old(self).ui(), old(self).content_heights@, key),
    {
        match self.input_mode {
            InputMode::Normal => self.handle_normal_key(key),
            InputMode::Prompt(kind) => self.handle_prompt_key(key, kind),
            InputMode::Modal(_) => self.handle_modal_key(key),
        }
    }

    fn handle_normal_key(&mut self, key: Key)
        requires
            old(self).wf(),
            old(self).input_mode == InputMode::Normal,
        ensures
            final(self).wf(),
            final(self).same_data(old(self)),
            final(self).ui() == normal_step(old(self).ui(), old(self).content_heights@, key),
    {
        let sel = self.selected_panel;
        match key {
            Key::Char(c) => {
                if c == 'q' {
                    self.should_quit = true;
                } else if c == '?' {
                    self.input_mode = InputMode::Modal(ModalKind::Help);
                } else if c == 'n' {
                    self.input_mode = InputMode::Prompt(PromptKind::BountyTitle);
                    self.prompt_buffer = String::new();
                    self.pending_bounty_title = None;
                } else if c == 'f' {
                    self.input_mode = InputMode::Prompt(PromptKind::FeedContent);
                    self.prompt_buffer = String::new();
                }
            },
            Key::Tab => {
                self.selected_panel = (sel + 1) % NUM_PANELS;
            },
            Key::BackTab => {
                self.selected_panel = (sel + NUM_PANELS - 1) % NUM_PANELS;
            },
            Key::Down => {
                let max_scroll = self.content_heights[sel].saturating_sub(1);
                let next = self.scroll_offsets[sel].saturating_add(1);
                let v = if next <= max_scroll { next } else { max_scroll };
                self.scroll_offsets.set(sel, v);
            },
            Key::Up => {
                let v = self.scroll_offsets[sel].saturating_sub(1);
                self.scroll_offsets.set(sel, v);
            },
            _ => {},
        }
    }

    fn handle_prompt_key(&mut self, key: Key, kind: PromptKind)
        requires
            old(self).wf(),
            old(self).input_mode == InputMode::Prompt(kind),
        ensures
            final(self).wf(),
            final(self).same_data(old(self)),
            final(self).ui() == prompt_step(old(self).ui(), kind, key),
    {
        match key {
            Key::Esc => {
                self.input_mode = InputMode::Normal;
                self.prompt_buffer = String::new();
                self.pending_bounty_title = None;
            },
            Key::Enter => {
                match kind {
                    PromptKind::BountyTitle => {
                        if !self.prompt_buffer.as_str().is_empty() {
                            let title = self.prompt_buffer.clone();
                            self.pending_bounty_title = Some(title);
                            self.prompt_buffer = String::new();
                            self.input_mode = InputMode::Prompt(PromptKind::BountyReward);
                        }
                    },
                    PromptKind::BountyReward => {
                        self.prompt_buffer = String::new();
                        self.pending_bounty_title = None;
                        self.input_mode = InputMode::Normal;
                    },
                    PromptKind::FeedContent => {
                        self.prompt_buffer = String::new();
                        self.input_mode = InputMode::Normal;
                    },
                }
            },
            Key::Backspace => {
                let _ = pop_char(&mut self.prompt_buffer);
            },
            Key::Char(c) => {
                push_char(&mut self.prompt_buffer, c);
            },
            _ => {},
        }
    }

    fn handle_modal_key(&mut self, key: Key)
        requires
            old(self).wf(),
            old(self).input_mode is Modal,
        ensures
            final(self).wf(),
            final(self).same_data(old(self)),
            final(self).ui() == modal_step(old(self).ui(), key),
    {
        match key {
            Key::Char(c) => {
                if c == '?' || c == 'q' {
                    self.input_mode = InputMode::Normal;
                }
            },
            Key::Esc => {
                self.input_mode = InputMode::Normal;
            },
            _ => {},
        }
    }
}


// ---------------------------------------------------------------------------
// Alerts
// ---------------------------------------------------------------------------

/// An alert as (severity, message, target panel).
pub open spec fn alert_view(a: Alert) -> (AlertSeverity, Seq<char>, usize) {
    (a.severity, a.message@, a.target_panel)
}

/// The alert raised for a bounty whose deadline is near, if any.
pub open spec fn bounty_alerts(bs: Seq<BountySummary>, now: u64) -> Seq<(AlertSeverity, Seq<char>, usize)>
    decreases bs.len(),
{
    if bs.len() == 0 {
        Seq::empty()
    } else {
        let r = bounty_alerts(bs.drop_last(), now);
        let b = bs.last();
        if b.deadline > 0 && b.deadline.saturating_sub(now) < 6 * 3600 {
            r.push((AlertSeverity::Warning, "Bounty "@ + prefix(b.id@, 8) + " deadline < 6h"@, 3usize))
        } else {
            r
        }
    }
}

/// The sum of the balances of the token rows.
pub open spec fn balance_sum(rows: Seq<TokenBalanceRow>) -> nat
    decreases rows.len(),
{
    if rows.len() == 0 {
        0
    } else {
        balance_sum(rows.drop_last()) + rows.last().balance as nat
    }
}

/// The alerts for a dashboard at time `now`: a disconnected mesh, bounties
/// due within six hours, and token rows whose balances are all zero.
pub open spec fn alerts_for(app: DashboardApp, now: u64) -> Seq<(AlertSeverity, Seq<char>, usize)> {
    (if app.mesh_status is None {
        seq![(AlertSeverity::Error, "Mesh disconnected"@, 0usize)]
    } else {
        Seq::empty()
    }) + bounty_alerts(app.active_bounties@, now) + (if balance_sum(app.token_balances@) == 0
        && app.token_balances.len() > 0 {
        seq![(AlertSeverity::Warning, "Token balances depleted (decay ≥15%)"@, 1usize)]
    } else {
        Seq::empty()
    })
}

/// The alert a bounty due soon raises.
pub open spec fn deadline_alert(b: BountySummary) -> (AlertSeverity, Seq<char>, usize) {
    (AlertSeverity::Warning, "Bounty "@ + prefix(b.id@, 8) + " deadline < 6h"@, 3usize)
}

/// A bounty is due soon when it has a deadline (a positive one) that has
/// passed or is less than six hours away.
pub open spec fn due_soon(b: BountySummary, now: u64) -> bool {
    b.deadline > 0 && (b.deadline as int) < now as int + 6 * 3600
}

proof fn lemma_filter_all<A>(s: Seq<A>, p: spec_fn(A) -> bool)
    requires
        forall|i: int| 0 <= i < s.len() ==> #[trigger] p(s[i]),
    ensures
        s.filter(p) == s,
    decreases s.len(),
{
    reveal(Seq::filter);
    if s.len() > 0 {
        lemma_filter_all(s.drop_last(), p);
        assert(p(s[s.len() - 1]));
        assert(s.drop_last().push(s.last()) =~= s);
    }
}

proof fn lemma_filter_none<A>(s: Seq<A>, p: spec_fn(A) -> bool)
    requires
        forall|i: int| 0 <= i < s.len() ==> !#[trigger] p(s[i]),
    ensures
        s.filter(p) == Seq::<A>::empty(),
    decreases s.len(),
{
    reveal(Seq::filter);
    if s.len() > 0 {
        lemma_filter_none(s.drop_last(), p);
        assert(!p(s[s.len() - 1]));
    }
}

proof fn lemma_bounty_alerts_filter(bs: Seq<BountySummary>, now: u64, p: spec_fn(BountySummary) -> bool)
    requires
        forall|b: BountySummary| #[trigger] p(b) == due_soon(b, now),
    ensures
        bounty_alerts(bs, now) == bs.filter(p).map_values(|b: BountySummary| deadline_alert(b)),
    decreases bs.len(),
{
    reveal(Seq::filter);
    if bs.len() > 0 {
        let d = bs.drop_last();
        lemma_bounty_alerts_filter(d, now, p);
        let b = bs.last();
        assert(b.deadline > 0 && b.deadline.saturating_sub(now) < 6 * 3600 <==> due_soon(b, now));
        if p(b) {
            assert(d.filter(p).push(b).map_values(|b: BountySummary| deadline_alert(b)) =~= d.filter(p).map_values(
                |b: BountySummary| deadline_alert(b),
            ).push(deadline_alert(b)));
        }
    }
}

/// The dashboard's alerts that point at the bounty panel are exactly one
/// "deadline < 6h" warning per bounty due soon, in the bounties' order: a
/// bounty is due soon when it has a deadline (a positive one, 0 meaning
/// none) that has passed or is less than six hours away.
pub proof fn law_deadline_alerts(app: DashboardApp, now: u64)
    ensures
        alerts_for(app, now).filter(|a: (AlertSeverity, Seq<char>, usize)| a.2 == 3usize) == app.active_bounties@.filter(
            |b: BountySummary| b.deadline > 0 && (b.deadline as int) < now as int + 6 * 3600,
        ).map_values(
            |b: BountySummary|
                (AlertSeverity::Warning, "Bounty "@ + prefix(b.id@, 8) + " deadline < 6h"@, 3usize),
        ),
{
    let bs = app.active_bounties@;
    let p = |b: BountySummary| b.deadline > 0 && (b.deadline as int) < now as int + 6 * 3600;
    let panel = |a: (AlertSeverity, Seq<char>, usize)| a.2 == 3usize;
    lemma_bounty_alerts_filter(bs, now, p);
    let h: Seq<(AlertSeverity, Seq<char>, usize)> = if app.mesh_status is None {
        seq![(AlertSeverity::Error, "Mesh disconnected"@, 0usize)]
    } else {
        Seq::empty()
    };
    let t: Seq<(AlertSeverity, Seq<char>, usize)> = if balance_sum(app.token_balances@) == 0
        && app.token_balances.len() > 0 {
        seq![(AlertSeverity::Warning, "Token balances depleted (decay ≥15%)"@, 1usize)]
    } else {
        Seq::empty()
    };
    let m = bounty_alerts(bs, now);
    assert(alerts_for(app, now) == h + m + t);
    lemma_filter_none(h, panel);
    lemma_filter_none(t, panel);
    lemma_filter_all(m, panel);
    Seq::filter_distributes_over_add(h + m, t, panel);
    Seq::filter_distributes_over_add(h, m, panel);
    assert(h.filter(panel) + m.filter(panel) =~= m);
    assert(m + t.filter(panel) =~= m);
    assert(bs.filter(p).map_values(|b: BountySummary| deadline_alert(b)) =~= bs.filter(p).map_values(
        |b: BountySummary| (AlertSeverity::Warning, "Bounty "@ + prefix(b.id@, 8) + " deadline < 6h"@, 3usize),
    ));
}

proof fn lemma_balance_sum_prefix(rows: Seq<TokenBalanceRow>, i: int)
    requires
        0 <= i <= rows.len(),
    ensures
        balance_sum(rows.take(i)) <= balance_sum(rows),
    decreases rows.len(),
{
    if i < rows.len() {
        assert(rows.drop_last().take(i) =~= rows.take(i));
        lemma_balance_sum_prefix(rows.drop_last(), i);
    } else {
        assert(rows.take(i) =~= rows);
    }
}

impl DashboardApp {
    /// Recomputes the alerts for time `now`.
    pub fn compute_alerts(&mut self, now: u64)
        requires
            balance_sum(old(self).token_balances@) <= u128::MAX,
        ensures
            final(self).alerts@.map_values(|a: Alert| alert_view(a)) == alerts_for(*old(self), now),
            final(self).selected_panel == old(self).selected_panel,
            final(self).scroll_offsets == old(self).scroll_offsets,
            final(self).content_heights == old(self).content_heights,
            final(self).mesh_status == old(self).mesh_status,
            final(self).token_balances == old(self).token_balances,
            final(self).reputation_score == old(self).reputation_score,
            final(self).feed_events == old(self).feed_events,
            final(self).active_bounties == old(self).active_bounties,
            final(self).training_jobs == old(self).training_jobs,
            final(self).should_quit == old(self).should_quit,
            final(self).input_mode == old(self).input_mode,
            final(self).prompt_buffer == old(self).prompt_buffer,
            final(self).pending_bounty_title == old(self).pending_bounty_title,
    {
        let mut alerts: Vec<Alert> = Vec::new();
        if self.mesh_status.is_none() {
            alerts.push(Alert {
                severity: AlertSeverity::Error,
                message: "Mesh disconnected".to_string(),
                target_panel: 0,
            });
        }
        let ghost head = alerts@.map_values(|a: Alert| alert_view(a));
        let ghost bs = self.active_bounties@;
        let mut i: usize = 0;
        assert(bs.take(0) =~= Seq::<BountySummary>::empty());
        assert(head + bounty_alerts(bs.take(0), now) =~= head);
        while i < self.active_bounties.len()
            invariant
                i <= bs.len(),
                bs == self.active_bounties@,
                alerts@.map_values(|a: Alert| alert_view(a)) == head + bounty_alerts(bs.take(i as int), now),
            decreases bs.len() - i,
        {
            let b = &self.active_bounties[i];
            assert(bs.take(i + 1).drop_last() =~= bs.take(i as int));
            assert(bs.take(i + 1).last() == bs[i as int]);
            if b.deadline > 0 {
                let remaining = b.deadline.saturating_sub(now);
                if remaining < 6 * 3600 {
                    let mut msg = "Bounty ".to_string();
                    let short = take_chars(b.id.as_str(), 8);
                    push_all(&mut msg, short.as_str());
                    push_all(&mut msg, " deadline < 6h");
                    let ghost before = alerts@.map_values(|a: Alert| alert_view(a));
                    alerts.push(Alert { severity: AlertSeverity::Warning, message: msg, target_panel: 3 });
                    assert(alerts@.map_values(|a: Alert| alert_view(a)) =~= before.push(
                        (AlertSeverity::Warning, "Bounty "@ + prefix(b.id@, 8) + " deadline < 6h"@, 3usize),
                    ));
                }
            }
            i = i + 1;
        }
        assert(bs.take(bs.len() as int) =~= bs);
        let mut total: u128 = 0;
        let mut k: usize = 0;
        let ghost rows = self.token_balances@;
        assert(rows.take(0) =~= Seq::<TokenBalanceRow>::empty());
        while k < self.token_balances.len()
            invariant
                k <= rows.len(),
                rows == self.token_balances@,
                balance_sum(rows) <= u128::MAX,
                total as nat == balance_sum(rows.take(k as int)),
            decreases rows.len() - k,
        {
            assert(rows.take(k + 1).drop_last() =~= rows.take(k as int));
            proof { lemma_balance_sum_prefix(rows, k + 1); }
            total = total + self.token_balances[k].balance;
            k = k + 1;
        }
        assert(rows.take(rows.len() as int) =~= rows);
        if total == 0 && self.token_balances.len() > 0 {
            let ghost before = alerts@.map_values(|a: Alert| alert_view(a));
            alerts.push(Alert {
                severity: AlertSeverity::Warning,
                message: "Token balances depleted (decay ≥15%)".to_string(),
                target_panel: 1,
            });
            assert(alerts@.map_values(|a: Alert| alert_view(a)) =~= before.push(
                (AlertSeverity::Warning, "Token balances depleted (decay ≥15%)"@, 1usize),
            ));
        }
        assert(alerts@.map_values(|a: Alert| alert_view(a)) =~= alerts_for(*old(self), now));
        self.alerts = alerts;
    }
}


// ---------------------------------------------------------------------------
// Time, state and number formatting
// ---------------------------------------------------------------------------

/// How long ago `ts` was at `now`: `now`, or a count of seconds, minutes,
/// hours or days.
pub open spec fn relative_time_text(ts: u64, now: u64) -> Seq<char> {
    let diff = now.saturating_sub(ts);
    if diff == 0 {
        "now"@
    } else if diff < 60 {
        decimal(diff as nat) + seq!['s']
    } else if diff < 3600 {
        decimal((diff / 60) as nat) + seq!['m']
    } else if diff < 86400 {
        decimal((diff / 3600) as nat) + seq!['h']
    } else {
        decimal((diff / 86400) as nat) + seq!['d']
    }
}

/// How long until `deadline` at `now`: `--` for no deadline, `expired`, or a
/// count of minutes, hours or days.
pub open spec fn deadline_text(deadline: u64, now: u64) -> Seq<char> {
    let remaining = deadline.saturating_sub(now);
    if deadline == 0 {
        "--"@
    } else if remaining == 0 {
        "expired"@
    } else if remaining < 3600 {
        decimal((remaining / 60) as nat) + seq!['m']
    } else if remaining < 86400 {
        decimal((remaining / 3600) as nat) + seq!['h']
    } else {
        decimal((remaining / 86400) as nat) + seq!['d']
    }
}

fn count_with_unit(n: u64, unit: char) -> (s: String)
    ensures
        s@ == decimal(n as nat) + seq![unit],
{
    let mut s = String::new();
    push_decimal(&mut s, n as u128);
    push_char(&mut s, unit);
    assert(s@ =~= decimal(n as nat) + seq![unit]);
    s
}

pub fn relative_time(timestamp_secs: u64, now: u64) -> (s: String)
    ensures
        s@ == relative_time_text(timestamp_secs, now),
{
    let diff = now.saturating_sub(timestamp_secs);
    if diff == 0 {
        "now".to_string()
    } else if diff < 60 {
        count_with_unit(diff, 's')
    } else if diff < 3600 {
        count_with_unit(diff / 60, 'm')
    } else if diff < 86400 {
        count_with_unit(diff / 3600, 'h')
    } else {
        count_with_unit(diff / 86400, 'd')
    }
}

pub fn deadline_ago(deadline: u64, now: u64) -> (s: String)
    ensures
        s@ == deadline_text(deadline, now),
{
    if deadline == 0 {
        return "--".to_string();
    }
    let remaining = deadline.saturating_sub(now);
    if remaining == 0 {
        "expired".to_string()
    } else if remaining < 3600 {
        count_with_unit(remaining / 60, 'm')
    } else if remaining < 86400 {
        count_with_unit(remaining / 3600, 'h')
    } else {
        count_with_unit(remaining / 86400, 'd')
    }
}

/// The color of a feed event kind: by thousands band.
pub open spec fn kind_color_of(kind: u16) -> Color {
    if 1000 <= kind <= 1999 {
        Color::Blue
    } else if 2000 <= kind <= 2999 {
        Color::Green
    } else if 3000 <= kind <= 3999 {
        Color::Yellow
    } else {
        Color::White
    }
}

pub fn kind_color(kind: u16) -> (c: Color)
    ensures
        c == kind_color_of(kind),
{
    if 1000 <= kind && kind <= 1999 {
        Color::Blue
    } else if 2000 <= kind && kind <= 2999 {
        Color::Green
    } else if 3000 <= kind && kind <= 3999 {
        Color::Yellow
    } else {
        Color::White
    }
}

pub open spec fn bounty_state_color_of(state: Seq<char>) -> Color {
    if state == "Open"@ {
        Color::Green
    } else if state == "Claimed"@ {
        Color::Blue
    } else if state == "Submitted"@ {
        Color::Yellow
    } else if state == "UnderReview"@ {
        Color::Magenta
    } else if state == "Paid"@ || state == "Cancelled"@ {
        Color::DarkGray
    } else {
        Color::White
    }
}

pub fn bounty_state_color(state: &str) -> (c: Color)
    ensures
        c == bounty_state_color_of(state@),
{
    if str_eq(state, "Open") {
        Color::Green
    } else if str_eq(state, "Claimed") {
        Color::Blue
    } else if str_eq(state, "Submitted") {
        Color::Yellow
    } else if str_eq(state, "UnderReview") {
        Color::Magenta
    } else if str_eq(state, "Paid") || str_eq(state, "Cancelled") {
        Color::DarkGray
    } else {
        Color::White
    }
}

pub open spec fn bounty_state_glyph_of(state: Seq<char>) -> Seq<char> {
    if state == "Open"@ {
        "●"@
    } else if state == "Claimed"@ {
        "◐"@
    } else if state == "Submitted"@ {
        "◑"@
    } else if state == "UnderReview"@ {
        "◒"@
    } else if state == "Paid"@ {
        "✓"@
    } else if state == "Cancelled"@ {
        "✗"@
    } else {
        "·"@
    }
}

pub fn bounty_state_glyph(state: &str) -> (g: &'static str)
    ensures
        g@ == bounty_state_glyph_of(state@),
{
    if str_eq(state, "Open") {
        "●"
    } else if str_eq(state, "Claimed") {
        "◐"
    } else if str_eq(state, "Submitted") {
        "◑"
    } else if str_eq(state, "UnderReview") {
        "◒"
    } else if str_eq(state, "Paid") {
        "✓"
    } else if str_eq(state, "Cancelled") {
        "✗"
    } else {
        "·"
    }
}

/// A ten-cell bar, one filled cell per full 10%, followed by the percentage
/// right-aligned in three columns.
pub open spec fn progress_bar_text(progress: u16) -> Seq<char> {
    let filled = (progress * 10 / 100) as nat;
    repeat('█', filled) + repeat('░', (10 - filled) as nat) + seq![' '] + pad_left(
        decimal(progress as nat),
        3,
        ' ',
    ) + seq!['%']
}

pub fn progress_bar(progress: u16) -> (s: String)
    requires
        progress <= 100,
    ensures
        s@ == progress_bar_text(progress),
{
    let filled: usize = (progress as usize * 10) / 100;
    let empty: usize = 10 - filled;
    let mut s = String::new();
    push_repeat(&mut s, '█', filled);
    push_repeat(&mut s, '░', empty);
    push_char(&mut s, ' ');
    let d = decimal_string(progress as u128);
    let dl = d.as_str().unicode_len();
    if dl < 3 {
        push_repeat(&mut s, ' ', 3 - dl);
    }
    push_all(&mut s, d.as_str());
    push_char(&mut s, '%');
    proof {
        let dv = decimal(progress as nat);
        if dv.len() < 3 {
            assert(pad_left(dv, 3, ' ') == repeat(' ', (3 - dv.len()) as nat) + dv);
        } else {
            assert(pad_left(dv, 3, ' ') == dv);
        }
    }
    assert(s@ =~= progress_bar_text(progress));
    s
}

/// The unit a balance is shown in.
#[derive(Clone, Copy, PartialEq, Eq, Structural, Debug)]
pub enum BalanceScale {
    Units,
    Thousands,
    Millions,
    Billions,
    Trillions,
}

/// The unit of a balance: the largest of thousands, millions, billions and
/// trillions it reaches, or plain units below a thousand.
pub open spec fn scale_of(v: u128) -> BalanceScale {
    if v >= 1_000_000_000_000 {
        BalanceScale::Trillions
    } else if v >= 1_000_000_000 {
        BalanceScale::Billions
    } else if v >= 1_000_000 {
        BalanceScale::Millions
    } else if v >= 1_000 {
        BalanceScale::Thousands
    } else {
        BalanceScale::Units
    }
}

/// What a balance is divided by to be shown in its unit.
pub open spec fn scale_divisor(s: BalanceScale) -> u128 {
    match s {
        BalanceScale::Units => 1,
        BalanceScale::Thousands => 1_000,
        BalanceScale::Millions => 1_000_000,
        BalanceScale::Billions => 1_000_000_000,
        BalanceScale::Trillions => 1_000_000_000_000,
    }
}

/// How many decimals a balance in this unit is shown with.
pub open spec fn scale_places(s: BalanceScale) -> u8 {
    match s {
        BalanceScale::Units => 0,
        BalanceScale::Thousands => 1,
        _ => 2,
    }
}

/// The letter after a balance in this unit.
pub open spec fn scale_suffix(s: BalanceScale) -> Seq<char> {
    match s {
        BalanceScale::Units => ""@,
        BalanceScale::Thousands => "K"@,
        BalanceScale::Millions => "M"@,
        BalanceScale::Billions => "B"@,
        BalanceScale::Trillions => "T"@,
    }
}

/// The unit a balance is shown in.
pub fn balance_scale(value: u128) -> (s: BalanceScale)
    ensures
        s == scale_of(value),
{
    if value >= 1_000_000_000_000 {
        BalanceScale::Trillions
    } else if value >= 1_000_000_000 {
        BalanceScale::Billions
    } else if value >= 1_000_000 {
        BalanceScale::Millions
    } else if value >= 1_000 {
        BalanceScale::Thousands
    } else {
        BalanceScale::Units
    }
}

impl BalanceScale {
    /// What a balance is divided by to be shown in this unit.
    pub fn divisor(&self) -> (d: u128)
        ensures
            d == scale_divisor(*self),
    {
        match self {
            BalanceScale::Units => 1,
            BalanceScale::Thousands => 1_000,
            BalanceScale::Millions => 1_000_000,
            BalanceScale::Billions => 1_000_000_000,
            BalanceScale::Trillions => 1_000_000_000_000,
        }
    }

    /// How many decimals a balance in this unit is shown with.
    pub fn places(&self) -> (p: u8)
        ensures
            p == scale_places(*self),
    {
        match self {
            BalanceScale::Units => 0,
            BalanceScale::Thousands => 1,
            _ => 2,
        }
    }

    /// The letter after a balance in this unit.
    pub fn suffix(&self) -> (s: &'static str)
        ensures
            s@ == scale_suffix(*self),
    {
        match self {
            BalanceScale::Units => "",
            BalanceScale::Thousands => "K",
            BalanceScale::Millions => "M",
            BalanceScale::Billions => "B",
            BalanceScale::Trillions => "T",
        }
    }
}

/// Below a trillion, a balance shown in its unit has a whole part of one to
/// three digits: it is at least one unit and under a thousand units.
pub proof fn law_scale_keeps_three_digits(v: u128)
    requires
        1 <= v < 1_000_000_000_000,
    ensures
        1 <= v / scale_divisor(scale_of(v)) < 1000,
{
    if v >= 1_000_000_000 {
        assert(1 <= v / 1_000_000_000 < 1000) by (nonlinear_arith)
            requires 1_000_000_000 <= v < 1_000_000_000_000;
    } else if v >= 1_000_000 {
        assert(1 <= v / 1_000_000 < 1000) by (nonlinear_arith)
            requires 1_000_000 <= v < 1_000_000_000;
    } else if v >= 1_000 {
        assert(1 <= v / 1_000 < 1000) by (nonlinear_arith)
            requires 1_000 <= v < 1_000_000;
    }
}

// ---------------------------------------------------------------------------
// Laws of the key handling
// ---------------------------------------------------------------------------

/// Every key press keeps the selected panel valid and one scroll offset per panel.
pub proof fn law_key_step_wf(u: UiState, heights: Seq<u16>, key: Key)
    requires
        ui_wf(u),
        heights.len() == 5,
    ensures
        ui_wf(key_step(u, heights, key)),
{
}

/// In normal mode, Tab followed by BackTab returns to the same state.
pub proof fn law_tab_backtab_roundtrip(u: UiState, heights: Seq<u16>)
    requires
        ui_wf(u),
        u.input_mode == InputMode::Normal,
    ensures
        key_step(key_step(u, heights, Key::Tab), heights, Key::BackTab) == u,
{
}

/// In normal mode, five Tabs cycle through every panel back to the first one.
pub proof fn law_tab_cycles(u: UiState, heights: Seq<u16>)
    requires
        ui_wf(u),
        u.input_mode == InputMode::Normal,
    ensures
        ({
            let u1 = key_step(u, heights, Key::Tab);
            let u2 = key_step(u1, heights, Key::Tab);
            let u3 = key_step(u2, heights, Key::Tab);
            let u4 = key_step(u3, heights, Key::Tab);
            let u5 = key_step(u4, heights, Key::Tab);
            &&& u5 == u
            &&& u1.selected_panel != u.selected_panel
            &&& u2.selected_panel != u.selected_panel
            &&& u3.selected_panel != u.selected_panel
            &&& u4.selected_panel != u.selected_panel
        }),
{
}

/// Scrolling down never moves the selected panel past its last content line,
/// and scrolling up never goes below zero.
pub proof fn law_scroll_bounded(u: UiState, heights: Seq<u16>)
    requires
        ui_wf(u),
        heights.len() == 5,
        u.input_mode == InputMode::Normal,
    ensures
        key_step(u, heights, Key::Down).scroll_offsets[u.selected_panel]
            <= heights[u.selected_panel].saturating_sub(1),
        key_step(u, heights, Key::Up).scroll_offsets[u.selected_panel] == u.scroll_offsets[u.selected_panel].saturating_sub(1),
{
}

/// Only normal mode quits: while a prompt or the help modal is open, no key
/// press sets the quit flag.
pub proof fn law_quit_only_in_normal_mode(u: UiState, heights: Seq<u16>, key: Key)
    requires
        u.input_mode != InputMode::Normal,
    ensures
        key_step(u, heights, key).should_quit == u.should_quit,
{
}

/// Help toggles: in normal mode, pressing `?` opens the help and pressing
/// `?` again closes it, giving back the state exactly as it was.
pub proof fn law_help_toggles(u: UiState, heights: Seq<u16>)
    requires
        u.input_mode == InputMode::Normal,
    ensures
        key_step(u, heights, Key::Char('?')).input_mode == InputMode::Modal(ModalKind::Help),
        key_step(key_step(u, heights, Key::Char('?')), heights, Key::Char('?')) == u,
{
}

/// While the help is open, `?`, `q` and Escape close it and change nothing
/// else (in particular `q` does not quit), and every other key is ignored.
pub proof fn law_help_modal_keys(u: UiState, heights: Seq<u16>, key: Key)
    requires
        (u.input_mode is Modal),
    ensures
        (key == Key::Char('?') || key == Key::Char('q') || key == Key::Esc) ==> key_step(u, heights, key)
            == (UiState { input_mode: InputMode::Normal, ..u }),
        !(key == Key::Char('?') || key == Key::Char('q') || key == Key::Esc) ==> key_step(u, heights, key) == u,
{
}

/// Escape from a prompt returns to normal mode with an empty buffer and no
/// pending bounty title.
pub proof fn law_escape_cancels_prompt(u: UiState, heights: Seq<u16>, kind: PromptKind)
    requires
        u.input_mode == InputMode::Prompt(kind),
    ensures
        key_step(u, heights, Key::Esc).input_mode == InputMode::Normal,
        key_step(u, heights, Key::Esc).prompt_buffer.len() == 0,
        key_step(u, heights, Key::Esc).pending_bounty_title is None,
{
}

/// Typing a character in a prompt and then deleting it leaves the buffer as it was.
pub proof fn law_type_then_backspace(u: UiState, heights: Seq<u16>, kind: PromptKind, c: char)
    requires
        u.input_mode == InputMode::Prompt(kind),
    ensures
        key_step(key_step(u, heights, Key::Char(c)), heights, Key::Backspace) == u,
{
    assert(u.prompt_buffer.push(c).drop_last() =~= u.prompt_buffer);
}

} // verus!
