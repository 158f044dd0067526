//! The agent lifecycle: activation, hibernation, reactivation, and the reaper
//! that moves idle agents towards zombie and dead states.
use vstd::prelude::*;
use crate::api_error::{ApiError, ApiErrorView};
use crate::output::{Output, OutputView, outputs_view};
use crate::text::{
    concat, decimal, decimal_string, push_all, push_decimal, short_did, short_did_ok, short_did_text,
};

verus! {

broadcast use vstd::string::group_string_axioms;

/// An agent that has not acted for this long becomes idle.
pub const IDLE_THRESHOLD_SECS: u64 = 604800;

/// An agent that has not acted for this long becomes a zombie.
pub const ZOMBIE_THRESHOLD_SECS: u64 = 2592000;

/// A zombie that has not acted for this long is tombstoned.
pub const DEATH_THRESHOLD_SECS: u64 = 7776000;

/// An active agent is warned after this long without activity.
pub const ZOMBIE_WARNING_SECS: u64 = 2160000;

/// A hibernating agent is tombstoned after this long.
pub const MAX_HIBERNATION_SECS: u64 = 15552000;

#[derive(Clone, Copy, PartialEq, Eq, Structural, Debug)]
pub enum AgentState {
    Created,
    Active,
    Hibernating,
    Idle,
    Zombie,
    Dead,
}

/// The upper-case name of a state, as it is displayed.
pub open spec fn state_label(s: AgentState) -> Seq<char> {
    match s {
        AgentState::Created => "CREATED"@,
        AgentState::Active => "ACTIVE"@,
        AgentState::Hibernating => "HIBERNATING"@,
        AgentState::Idle => "IDLE"@,
        AgentState::Zombie => "ZOMBIE"@,
        AgentState::Dead => "DEAD"@,
    }
}

impl AgentState {
    /// The upper-case name of the state.
    pub fn label(&self) -> (s: &'static str)
        ensures
            s@ == state_label(*self),
    {
        match self {
            AgentState::Created => "CREATED",
            AgentState::Active => "ACTIVE",
            AgentState::Hibernating => "HIBERNATING",
            AgentState::Idle => "IDLE",
            AgentState::Zombie => "ZOMBIE",
            AgentState::Dead => "DEAD",
        }
    }
}

/// The lifecycle record of one agent.
pub struct LifecycleRecord {
    pub did: String,
    pub state: AgentState,
    pub last_activity: u64,
    pub activated_at: Option<u64>,
    pub hibernated_at: Option<u64>,
    pub tombstoned_at: Option<u64>,
    pub derived_from: Option<String>,
}

/// Why a lifecycle transition was refused.
#[derive(Clone, Copy, PartialEq, Eq, Structural, Debug)]
pub enum LifecycleError {
    /// Activation of an agent that is already active.
    AlreadyActive,
    /// Activation of a tombstoned agent.
    Dead,
    /// No lifecycle record exists for the agent.
    NoRecord,
    /// Hibernation from a state other than active.
    NotActive(AgentState),
    /// Reactivation from a state other than hibernating.
    NotHibernating(AgentState),
}

/// The fields of a record that transitions change, as
/// (state, last activity, activated at, hibernated at, tombstoned at).
pub open spec fn fields(r: LifecycleRecord) -> (AgentState, u64, Option<u64>, Option<u64>, Option<u64>) {
    (r.state, r.last_activity, r.activated_at, r.hibernated_at, r.tombstoned_at)
}

/// The outcome of `activate` on the current record: refused for an active or
/// dead agent; otherwise the agent becomes active with its activity at `now`.
pub open spec fn activate_spec(current: Option<LifecycleRecord>, now: u64) -> Result<
    (AgentState, u64, Option<u64>, Option<u64>, Option<u64>),
    LifecycleError,
> {
    match current {
        None => Ok((AgentState::Active, now, Some(now), None, None)),
        Some(r) => if r.state == AgentState::Active {
            Err(LifecycleError::AlreadyActive)
        } else if r.state == AgentState::Dead {
            Err(LifecycleError::Dead)
        } else {
            Ok((AgentState::Active, now, r.activated_at, r.hibernated_at, r.tombstoned_at))
        },
    }
}

/// The outcome of `hibernate`: only an active agent may hibernate.
pub open spec fn hibernate_spec(current: Option<LifecycleRecord>, now: u64) -> Result<
    (AgentState, u64, Option<u64>, Option<u64>, Option<u64>),
    LifecycleError,
> {
    match current {
        None => Err(LifecycleError::NoRecord),
        Some(r) => if r.state != AgentState::Active {
            Err(LifecycleError::NotActive(r.state))
        } else {
            Ok((AgentState::Hibernating, r.last_activity, r.activated_at, Some(now), r.tombstoned_at))
        },
    }
}

/// The outcome of `reactivate`: only a hibernating agent may come back.
pub open spec fn reactivate_spec(current: Option<LifecycleRecord>, now: u64) -> Result<
    (AgentState, u64, Option<u64>, Option<u64>, Option<u64>),
    LifecycleError,
> {
    match current {
        None => Err(LifecycleError::NoRecord),
        Some(r) => if r.state != AgentState::Hibernating {
            Err(LifecycleError::NotHibernating(r.state))
        } else {
            Ok((AgentState::Active, now, r.activated_at, None, r.tombstoned_at))
        },
    }
}

pub open spec fn result_fields(r: Result<LifecycleRecord, LifecycleError>) -> Result<
    (AgentState, u64, Option<u64>, Option<u64>, Option<u64>),
    LifecycleError,
> {
    match r {
        Ok(rec) => Ok(fields(rec)),
        Err(e) => Err(e),
    }
}

/// The DID and lineage of the record a transition yields are those of the
/// current record, or, for a first activation, the agent's own DID and none.
pub open spec fn keeps_identity(
    current: Option<LifecycleRecord>,
    did: Seq<char>,
    r: Result<LifecycleRecord, LifecycleError>,
) -> bool {
    r matches Ok(rec) ==> match current {
        Some(c) => rec.did == c.did && rec.derived_from == c.derived_from,
        None => rec.did@ == did && rec.derived_from is None,
    }
}

/// Activates an agent: creates its record, or brings it back to active.
pub fn activate(did: &str, current: Option<LifecycleRecord>, now: u64) -> (r: Result<LifecycleRecord, LifecycleError>)
    ensures
        result_fields(r) == activate_spec(current, now),
        keeps_identity(current, did@, r),
{
    match current {
        None => Ok(LifecycleRecord {
            did: did.to_string(),
            state: AgentState::Active,
            last_activity: now,
            activated_at: Some(now),
            hibernated_at: None,
            tombstoned_at: None,
            derived_from: None,
        }),
        Some(rec) => {
            if rec.state == AgentState::Active {
                return Err(LifecycleError::AlreadyActive);
            }
            if rec.state == AgentState::Dead {
                return Err(LifecycleError::Dead);
            }
            Ok(LifecycleRecord { state: AgentState::Active, last_activity: now, ..rec })
        },
    }
}

/// Puts an active agent into hibernation.
pub fn hibernate(current: Option<LifecycleRecord>, now: u64) -> (r: Result<LifecycleRecord, LifecycleError>)
    ensures
        result_fields(r) == hibernate_spec(current, now),
        keeps_identity(current, Seq::empty(), r),
{
    match current {
        None => Err(LifecycleError::NoRecord),
        Some(rec) => {
            if rec.state != AgentState::Active {
                return Err(LifecycleError::NotActive(rec.state));
            }
            Ok(LifecycleRecord { state: AgentState::Hibernating, hibernated_at: Some(now), ..rec })
        },
    }
}

/// Brings a hibernating agent back to active.
pub fn reactivate(current: Option<LifecycleRecord>, now: u64) -> (r: Result<LifecycleRecord, LifecycleError>)
    ensures
        result_fields(r) == reactivate_spec(current, now),
        keeps_identity(current, Seq::empty(), r),
{
    match current {
        None => Err(LifecycleError::NoRecord),
        Some(rec) => {
            if rec.state != AgentState::Hibernating {
                return Err(LifecycleError::NotHibernating(rec.state));
            }
            Ok(LifecycleRecord {
                state: AgentState::Active,
                last_activity: now,
                hibernated_at: None,
                ..rec
            })
        },
    }
}

/// The state and tombstone time the reaper gives a record at `now`.
pub open spec fn reap_spec(r: LifecycleRecord, now: u64) -> (AgentState, Option<u64>) {
    let elapsed = now.saturating_sub(r.last_activity);
    match r.state {
        AgentState::Active | AgentState::Idle => if elapsed >= ZOMBIE_THRESHOLD_SECS {
            (AgentState::Zombie, r.tombstoned_at)
        } else if elapsed >= IDLE_THRESHOLD_SECS && r.state == AgentState::Active {
            (AgentState::Idle, r.tombstoned_at)
        } else {
            (r.state, r.tombstoned_at)
        },
        AgentState::Zombie => if elapsed >= DEATH_THRESHOLD_SECS {
            (AgentState::Dead, Some(now))
        } else {
            (r.state, r.tombstoned_at)
        },
        AgentState::Hibernating => match r.hibernated_at {
            Some(h) => if now.saturating_sub(h) >= MAX_HIBERNATION_SECS {
                (AgentState::Dead, Some(now))
            } else {
                (r.state, r.tombstoned_at)
            },
            None => (r.state, r.tombstoned_at),
        },
        AgentState::Created | AgentState::Dead => (r.state, r.tombstoned_at),
    }
}

/// One reaper pass over a record: the record with its new state (and
/// tombstone time when it died); every other field is unchanged.
pub fn reap_record(rec: LifecycleRecord, now: u64) -> (r: LifecycleRecord)
    ensures
        (r.state, r.tombstoned_at) == reap_spec(rec, now),
        r.did == rec.did,
        r.last_activity == rec.last_activity,
        r.activated_at == rec.activated_at,
        r.hibernated_at == rec.hibernated_at,
        r.derived_from == rec.derived_from,
{
    let elapsed = now.saturating_sub(rec.last_activity);
    match rec.state {
        AgentState::Active | AgentState::Idle => {
            if elapsed >= ZOMBIE_THRESHOLD_SECS {
                LifecycleRecord { state: AgentState::Zombie, ..rec }
            } else if elapsed >= IDLE_THRESHOLD_SECS && rec.state == AgentState::Active {
                LifecycleRecord { state: AgentState::Idle, ..rec }
            } else {
                rec
            }
        },
        AgentState::Zombie => {
            if elapsed >= DEATH_THRESHOLD_SECS {
                LifecycleRecord { state: AgentState::Dead, tombstoned_at: Some(now), ..rec }
            } else {
                rec
            }
        },
        AgentState::Hibernating => {
            match rec.hibernated_at {
                Some(h) => {
                    if now.saturating_sub(h) >= MAX_HIBERNATION_SECS {
                        LifecycleRecord { state: AgentState::Dead, tombstoned_at: Some(now), ..rec }
                    } else {
                        rec
                    }
                },
                None => rec,
            }
        },
        AgentState::Created | AgentState::Dead => rec,
    }
}

// ---------------------------------------------------------------------------
// Laws
// ---------------------------------------------------------------------------

/// A dead agent stays dead: the reaper never revives it and activation refuses it.
pub proof fn law_dead_is_final(r: LifecycleRecord, now: u64)
    requires
        r.state == AgentState::Dead,
    ensures
        reap_spec(r, now) == (AgentState::Dead, r.tombstoned_at),
        activate_spec(Some(r), now) == Err::<(AgentState, u64, Option<u64>, Option<u64>, Option<u64>), LifecycleError>(LifecycleError::Dead),
{
}

/// Hibernating and then reactivating an active agent makes it active again,
/// with its activity at the reactivation time and no hibernation time.
pub proof fn law_hibernate_reactivate(r: LifecycleRecord, t1: u64, t2: u64)
    requires
        r.state == AgentState::Active,
    ensures
        ({
            let h = LifecycleRecord {
                state: AgentState::Hibernating,
                hibernated_at: Some(t1),
                ..r
            };
            &&& hibernate_spec(Some(r), t1) == Ok::<_, LifecycleError>(fields(h))
            &&& reactivate_spec(Some(h), t2) == Ok::<_, LifecycleError>(
                (AgentState::Active, t2, r.activated_at, None::<u64>, r.tombstoned_at),
            )
        }),
{
}

/// The reaper only moves agents forward: active to idle or zombie, idle to
/// zombie, zombie or hibernating to dead; created and dead agents stay as they are.
pub proof fn law_reap_moves_forward(r: LifecycleRecord, now: u64)
    ensures
        ({
            let s = reap_spec(r, now).0;
            match r.state {
                AgentState::Active => s == AgentState::Active || s == AgentState::Idle || s == AgentState::Zombie,
                AgentState::Idle => s == AgentState::Idle || s == AgentState::Zombie,
                AgentState::Zombie => s == AgentState::Zombie || s == AgentState::Dead,
                AgentState::Hibernating => s == AgentState::Hibernating || s == AgentState::Dead,
                AgentState::Created => s == AgentState::Created,
                AgentState::Dead => s == AgentState::Dead,
            }
        }),
{
}

/// The reaper's clocks, in days. An active or idle agent becomes a zombie
/// once 30 days have passed since its last activity; an active agent idles
/// after 7 days. A zombie dies 90 days after its last activity. A
/// hibernating agent dies 180 days after it went into hibernation, whatever
/// its last activity. Death records the time of the pass. Created and dead
/// agents never change.
pub proof fn law_reap_thresholds(r: LifecycleRecord, now: u64)
    ensures
        ({
            let (s, t) = reap_spec(r, now);
            let idle_for = now as int - r.last_activity as int;
            let day = 86400int;
            &&& r.state == AgentState::Active ==> (s == AgentState::Zombie <==> idle_for >= 30 * day)
                && (s == AgentState::Idle <==> 7 * day <= idle_for < 30 * day)
                && (s == AgentState::Active <==> idle_for < 7 * day)
            &&& r.state == AgentState::Idle ==> (s == AgentState::Zombie <==> idle_for >= 30 * day)
                && (s == AgentState::Idle <==> idle_for < 30 * day)
            &&& r.state == AgentState::Zombie ==> (s == AgentState::Dead <==> idle_for >= 90 * day)
                && (s == AgentState::Zombie <==> idle_for < 90 * day)
            &&& (r.state == AgentState::Hibernating && r.hibernated_at is Some) ==> (s
                == AgentState::Dead <==> now as int - r.hibernated_at->Some_0 as int >= 180 * day)
                && (s != AgentState::Dead ==> s == AgentState::Hibernating)
            &&& (r.state == AgentState::Hibernating && r.hibernated_at is None) ==> s == AgentState::Hibernating
            &&& (r.state == AgentState::Created || r.state == AgentState::Dead) ==> s == r.state
            &&& (s == AgentState::Dead && r.state != AgentState::Dead) ==> t == Some(now)
            &&& (s == r.state || r.state == AgentState::Active || r.state == AgentState::Idle) ==> t == r.tombstoned_at
        }),
{
}

/// A hibernating agent's fate in a reaper pass does not depend on its last
/// activity: only the time it went into hibernation counts.
pub proof fn law_hibernation_ignores_last_activity(r: LifecycleRecord, now: u64, other_activity: u64)
    requires
        r.state == AgentState::Hibernating,
    ensures
        reap_spec(r, now) == reap_spec(LifecycleRecord { last_activity: other_activity, ..r }, now),
{
}

/// Reaping reaches a fixed point within two passes at the same time: a third
/// pass changes nothing.
pub proof fn law_reap_at_most_two_steps(r: LifecycleRecord, now: u64)
    ensures
        ({
            let (s1, t1) = reap_spec(r, now);
            let r1 = LifecycleRecord { state: s1, tombstoned_at: t1, ..r };
            let (s2, t2) = reap_spec(r1, now);
            let r2 = LifecycleRecord { state: s2, tombstoned_at: t2, ..r1 };
            reap_spec(r2, now) == (s2, t2)
        }),
{
}


// ---------------------------------------------------------------------------
// Messages
// ---------------------------------------------------------------------------

/// The command-line message for a refused transition.
pub open spec fn error_text(e: LifecycleError) -> Seq<char> {
    match e {
        LifecycleError::AlreadyActive => "agent is already ACTIVE"@,
        LifecycleError::Dead => "agent is DEAD (tombstoned, irreversible)"@,
        LifecycleError::NoRecord => "no lifecycle record -- run `agnetd lifecycle activate`"@,
        LifecycleError::NotActive(s) => "can only hibernate from ACTIVE state, current: "@ + state_label(s),
        LifecycleError::NotHibernating(s) => "can only reactivate from HIBERNATING, current: "@ + state_label(s),
    }
}

pub fn error_message(e: LifecycleError) -> (m: String)
    ensures
        m@ == error_text(e),
{
    match e {
        LifecycleError::AlreadyActive => "agent is already ACTIVE".to_string(),
        LifecycleError::Dead => "agent is DEAD (tombstoned, irreversible)".to_string(),
        LifecycleError::NoRecord => "no lifecycle record -- run `agnetd lifecycle activate`".to_string(),
        LifecycleError::NotActive(s) => concat("can only hibernate from ACTIVE state, current: ", s.label()),
        LifecycleError::NotHibernating(s) => concat("can only reactivate from HIBERNATING, current: ", s.label()),
    }
}

/// The API error for a refused transition: a missing record is not found,
/// every other refusal is a bad request with the command-line message.
pub open spec fn api_error_of(e: LifecycleError) -> ApiErrorView {
    match e {
        LifecycleError::NoRecord => ApiErrorView::NotFound(
            "no lifecycle record -- POST /api/v1/lifecycle/activate first"@,
        ),
        _ => ApiErrorView::BadRequest(error_text(e)),
    }
}

pub fn to_api_error(e: LifecycleError) -> (r: ApiError)
    ensures
        r@ == api_error_of(e),
{
    match e {
        LifecycleError::NoRecord => ApiError::NotFound(
            "no lifecycle record -- POST /api/v1/lifecycle/activate first".to_string(),
        ),
        _ => ApiError::BadRequest(error_message(e)),
    }
}

/// Days left before an active agent idle for `elapsed` seconds turns zombie,
/// when it is past the warning threshold.
pub open spec fn zombie_warning(state: AgentState, elapsed: u64) -> Option<Seq<char>> {
    if state == AgentState::Active && elapsed > ZOMBIE_WARNING_SECS {
        Some("Zombie warning: "@ + decimal((ZOMBIE_THRESHOLD_SECS.saturating_sub(elapsed) / 86400) as nat)
            + " days until zombification"@)
    } else {
        None
    }
}

pub fn zombie_warning_text(state: AgentState, elapsed: u64) -> (w: Option<String>)
    ensures
        match w {
            Some(s) => zombie_warning(state, elapsed) == Some(s@),
            None => zombie_warning(state, elapsed) is None,
        },
{
    if state == AgentState::Active && elapsed > ZOMBIE_WARNING_SECS {
        let days = ZOMBIE_THRESHOLD_SECS.saturating_sub(elapsed) / 86400;
        let mut s = "Zombie warning: ".to_string();
        push_decimal(&mut s, days as u128);
        push_all(&mut s, " days until zombification");
        Some(s)
    } else {
        None
    }
}

// ---------------------------------------------------------------------------
// Commands
// ---------------------------------------------------------------------------

/// The lifecycle subcommands.
pub enum LifecycleCommands {
    Status,
    Activate,
    Hibernate,
    Reactivate,
    List,
    Reap,
}

/// What a lifecycle command shows and the records it stores.
pub struct LifecycleEffect {
    pub outputs: Vec<Output>,
    pub writes: Vec<LifecycleRecord>,
}

/// What `lifecycle status` shows for agent `did`.
pub open spec fn status_outputs(did: Seq<char>, current: Option<LifecycleRecord>, now: u64) -> Seq<OutputView> {
    match current {
        None => seq![OutputView::Status("No lifecycle record. Run `agnetd lifecycle activate` to register."@)],
        Some(r) => {
            let elapsed = now.saturating_sub(r.last_activity);
            seq![
                OutputView::Value { key: "DID"@, value: did },
                OutputView::Value { key: "State"@, value: state_label(r.state) },
                OutputView::Value { key: "Last Activity"@, value: decimal(r.last_activity as nat) },
                OutputView::Value { key: "Elapsed"@, value: decimal(elapsed as nat) + seq!['s'] },
            ] + (match r.activated_at {
                Some(t) => seq![OutputView::Value { key: "Activated At"@, value: decimal(t as nat) }],
                None => Seq::empty(),
            }) + (match zombie_warning(r.state, elapsed) {
                Some(w) => seq![OutputView::Warning(w)],
                None => Seq::empty(),
            })
        },
    }
}

/// The table row for a record: its shortened DID, state and last activity.
pub open spec fn record_row(r: LifecycleRecord) -> Seq<Seq<char>> {
    seq![short_did_text(r.did@), state_label(r.state), decimal(r.last_activity as nat)]
}

pub open spec fn record_rows(rs: Seq<LifecycleRecord>) -> Seq<Seq<Seq<char>>>
    decreases rs.len(),
{
    if rs.len() == 0 {
        Seq::empty()
    } else {
        record_rows(rs.drop_last()).push(record_row(rs.last()))
    }
}

/// Every DID of `rs` can be shortened for display.
pub open spec fn dids_displayable(rs: Seq<LifecycleRecord>) -> bool {
    forall|i: int| 0 <= i < rs.len() ==> short_did_ok((#[trigger] rs[i]).did@)
}

/// Every DID of a record that a reaper pass at `now` changes can be
/// shortened for display.
pub open spec fn changed_dids_displayable(rs: Seq<LifecycleRecord>, now: u64) -> bool {
    forall|i: int|
        0 <= i < rs.len() && reap_spec(#[trigger] rs[i], now).0 != rs[i].state ==> short_did_ok(
            rs[i].did@,
        )
}

/// The record after a reaper pass.
pub open spec fn reaped(r: LifecycleRecord, now: u64) -> LifecycleRecord {
    LifecycleRecord { state: reap_spec(r, now).0, tombstoned_at: reap_spec(r, now).1, ..r }
}

/// The records a reaper pass changes, after the pass, in order.
pub open spec fn reap_writes(rs: Seq<LifecycleRecord>, now: u64) -> Seq<LifecycleRecord>
    decreases rs.len(),
{
    if rs.len() == 0 {
        Seq::empty()
    } else {
        let w = reap_writes(rs.drop_last(), now);
        let r = rs.last();
        if reap_spec(r, now).0 != r.state {
            w.push(reaped(r, now))
        } else {
            w
        }
    }
}

/// The transition rows of a reaper pass: DID, old state and new state.
pub open spec fn reap_rows(rs: Seq<LifecycleRecord>, now: u64) -> Seq<Seq<Seq<char>>>
    decreases rs.len(),
{
    if rs.len() == 0 {
        Seq::empty()
    } else {
        let w = reap_rows(rs.drop_last(), now);
        let r = rs.last();
        if reap_spec(r, now).0 != r.state {
            w.push(seq![short_did_text(r.did@), state_label(r.state), state_label(reap_spec(r, now).0)])
        } else {
            w
        }
    }
}

/// What `lifecycle reap` shows.
pub open spec fn reap_outputs(rs: Seq<LifecycleRecord>, now: u64) -> Seq<OutputView> {
    let rows = reap_rows(rs, now);
    if rows.len() == 0 {
        seq![OutputView::Status("No state transitions needed"@)]
    } else {
        seq![
            OutputView::Table { headers: seq!["Agent DID"@, "From"@, "To"@], rows },
            OutputView::Status("Processed "@ + decimal(rows.len()) + " state transitions"@),
        ]
    }
}

/// What `lifecycle list` shows.
pub open spec fn list_outputs(rs: Seq<LifecycleRecord>) -> Seq<OutputView> {
    if rs.len() == 0 {
        seq![OutputView::Status("No agents registered"@)]
    } else {
        seq![OutputView::Table { headers: seq!["DID"@, "State"@, "Last Activity"@], rows: record_rows(rs) }]
    }
}

fn status_line(text: String) -> (o: Output)
    ensures
        o@ == OutputView::Status(text@),
{
    Output::Status(text)
}

fn record_row_exec(r: &LifecycleRecord) -> (row: Vec<String>)
    requires
        short_did_ok(r.did@),
    ensures
        crate::text::views(row@) == record_row(*r),
{
    let mut last = String::new();
    push_decimal(&mut last, r.last_activity as u128);
    assert(Seq::<char>::empty() + decimal(r.last_activity as nat) =~= decimal(r.last_activity as nat));
    let row = vec![short_did(r.did.as_str()), r.state.label().to_string(), last];
    assert(crate::text::views(row@) =~= record_row(*r));
    row
}

/// Shows the lifecycle status of agent `did`.
pub fn show_status(did: &str, current: &Option<LifecycleRecord>, now: u64) -> (out: Vec<Output>)
    ensures
        outputs_view(out@) == status_outputs(did@, *current, now),
{
    match current {
        None => {
            let out = vec![status_line(
                "No lifecycle record. Run `agnetd lifecycle activate` to register.".to_string(),
            )];
            assert(outputs_view(out@) =~= status_outputs(did@, *current, now));
            out
        },
        Some(r) => {
            let elapsed = now.saturating_sub(r.last_activity);
            let mut out: Vec<Output> = Vec::new();
            out.push(crate::output::value("DID", did));
            out.push(crate::output::value("State", r.state.label()));
            let last = decimal_string(r.last_activity as u128);
            out.push(crate::output::value("Last Activity", last.as_str()));
            let mut el = decimal_string(elapsed as u128);
            crate::text::push_char(&mut el, 's');
            assert(el@ =~= decimal(elapsed as nat) + seq!['s']);
            out.push(crate::output::value("Elapsed", el.as_str()));
            let ghost base = outputs_view(out@);
            assert(base =~= seq![
                OutputView::Value { key: "DID"@, value: did@ },
                OutputView::Value { key: "State"@, value: state_label(r.state) },
                OutputView::Value { key: "Last Activity"@, value: decimal(r.last_activity as nat) },
                OutputView::Value { key: "Elapsed"@, value: decimal(elapsed as nat) + seq!['s'] },
            ]);
            let ghost act: Seq<OutputView> = match r.activated_at {
                Some(t) => seq![OutputView::Value { key: "Activated At"@, value: decimal(t as nat) }],
                None => Seq::empty(),
            };
            match r.activated_at {
                Some(t) => {
                    let ts = decimal_string(t as u128);
                    out.push(crate::output::value("Activated At", ts.as_str()));
                },
                None => {},
            }
            assert(outputs_view(out@) =~= base + act);
            let ghost warn: Seq<OutputView> = match zombie_warning(r.state, elapsed) {
                Some(w) => seq![OutputView::Warning(w)],
                None => Seq::empty(),
            };
            match zombie_warning_text(r.state, elapsed) {
                Some(w) => {
                    out.push(Output::Warning(w));
                },
                None => {},
            }
            assert(outputs_view(out@) =~= base + act + warn);
            assert(outputs_view(out@) =~= status_outputs(did@, *current, now));
            out
        },
    }
}

/// Lists every agent with its state and last activity.
pub fn list_agents(all: &Vec<LifecycleRecord>) -> (out: Vec<Output>)
    requires
        dids_displayable(all@),
    ensures
        outputs_view(out@) == list_outputs(all@),
{
    if all.len() == 0 {
        let out = vec![status_line("No agents registered".to_string())];
        assert(outputs_view(out@) =~= list_outputs(all@));
        return out;
    }
    let mut rows: Vec<Vec<String>> = Vec::new();
    let mut i: usize = 0;
    assert(all@.take(0) =~= Seq::<LifecycleRecord>::empty());
    while i < all.len()
        invariant
            i <= all.len(),
            dids_displayable(all@),
            crate::output::rows_view(rows@) == record_rows(all@.take(i as int)),
        decreases all.len() - i,
    {
        assert(all@.take(i + 1).drop_last() =~= all@.take(i as int));
        let row = record_row_exec(&all[i]);
        let ghost before = crate::output::rows_view(rows@);
        rows.push(row);
        assert(crate::output::rows_view(rows@) =~= before.push(record_row(all@[i as int])));
        i = i + 1;
    }
    assert(all@.take(all.len() as int) =~= all@);
    let headers = vec!["DID".to_string(), "State".to_string(), "Last Activity".to_string()];
    assert(crate::text::views(headers@) =~= seq!["DID"@, "State"@, "Last Activity"@]);
    let out = vec![Output::Table { headers, rows }];
    assert(outputs_view(out@) =~= list_outputs(all@));
    out
}

/// One reaper pass over every record: the changed records and what it shows.
pub fn reap(all: &Vec<LifecycleRecord>, now: u64) -> (e: LifecycleEffect)
    requires
        changed_dids_displayable(all@, now),
    ensures
        e.writes@ == reap_writes(all@, now),
        outputs_view(e.outputs@) == reap_outputs(all@, now),
{
    let mut writes: Vec<LifecycleRecord> = Vec::new();
    let mut rows: Vec<Vec<String>> = Vec::new();
    let mut i: usize = 0;
    assert(all@.take(0) =~= Seq::<LifecycleRecord>::empty());
    while i < all.len()
        invariant
            i <= all.len(),
            changed_dids_displayable(all@, now),
            writes@ == reap_writes(all@.take(i as int), now),
            crate::output::rows_view(rows@) == reap_rows(all@.take(i as int), now),
        decreases all.len() - i,
    {
        assert(all@.take(i + 1).drop_last() =~= all@.take(i as int));
        assert(all@.take(i + 1).last() == all@[i as int]);
        let r = &all[i];
        let old_state = r.state;
        let copy = LifecycleRecord {
            did: r.did.clone(),
            state: r.state,
            last_activity: r.last_activity,
            activated_at: r.activated_at,
            hibernated_at: r.hibernated_at,
            tombstoned_at: r.tombstoned_at,
            derived_from: r.derived_from.clone(),
        };
        assert(copy == *r);
        let next = reap_record(copy, now);
        if next.state != old_state {
            assert(reap_spec(all@[i as int], now).0 != all@[i as int].state);
            assert(short_did_ok(all@[i as int].did@));
            let row = vec![short_did(r.did.as_str()), old_state.label().to_string(), next.state.label().to_string()];
            assert(crate::text::views(row@) =~= seq![short_did_text(r.did@), state_label(old_state), state_label(next.state)]);
            let ghost before = crate::output::rows_view(rows@);
            rows.push(row);
            assert(crate::output::rows_view(rows@) =~= before.push(
                seq![short_did_text(r.did@), state_label(old_state), state_label(next.state)],
            ));
            writes.push(next);
        }
        i = i + 1;
    }
    assert(all@.take(all.len() as int) =~= all@);
    let n = rows.len();
    let mut outputs: Vec<Output> = Vec::new();
    if n == 0 {
        outputs.push(status_line("No state transitions needed".to_string()));
    } else {
        let headers = vec!["Agent DID".to_string(), "From".to_string(), "To".to_string()];
        assert(crate::text::views(headers@) =~= seq!["Agent DID"@, "From"@, "To"@]);
        let mut msg = "Processed ".to_string();
        push_decimal(&mut msg, n as u128);
        push_all(&mut msg, " state transitions");
        outputs.push(Output::Table { headers, rows });
        outputs.push(status_line(msg));
    }
    assert(outputs_view(outputs@) =~= reap_outputs(all@, now));
    LifecycleEffect { outputs, writes }
}


/// The status line after a successful transition of agent `did`.
pub open spec fn transition_message(cmd: LifecycleCommands, did: Seq<char>, had_record: bool) -> Seq<char> {
    match cmd {
        LifecycleCommands::Activate => if had_record {
            "Agent "@ + did + " reactivated"@
        } else {
            "Agent "@ + did + " activated (immunity period: 14 days)"@
        },
        LifecycleCommands::Hibernate => "Agent "@ + did + " hibernating (state preserved)"@,
        _ => "Agent "@ + did + " reactivated from hibernation"@,
    }
}

/// The outcome of a transition command on the current record.
pub open spec fn transition_spec(cmd: LifecycleCommands, current: Option<LifecycleRecord>, now: u64) -> Result<
    (AgentState, u64, Option<u64>, Option<u64>, Option<u64>),
    LifecycleError,
> {
    match cmd {
        LifecycleCommands::Activate => activate_spec(current, now),
        LifecycleCommands::Hibernate => hibernate_spec(current, now),
        _ => reactivate_spec(current, now),
    }
}

/// `r` is what a transition command gives: the refusal message, or one
/// stored record with the new fields and a status line.
pub open spec fn transition_post(
    cmd: LifecycleCommands,
    did: Seq<char>,
    current: Option<LifecycleRecord>,
    now: u64,
    r: Result<LifecycleEffect, String>,
) -> bool {
    match transition_spec(cmd, current, now) {
        Err(e) => r matches Err(m) && m@ == error_text(e),
        Ok(f) => r matches Ok(eff) && {
            &&& eff.writes@.len() == 1
            &&& fields(eff.writes@[0]) == f
            &&& keeps_identity(current, did, Ok::<LifecycleRecord, LifecycleError>(eff.writes@[0]))
            &&& outputs_view(eff.outputs@) == seq![
                OutputView::Status(transition_message(cmd, did, current is Some)),
            ]
        },
    }
}

/// Runs a lifecycle subcommand for agent `did`, given its current record,
/// every stored record and the time; returns what to show and what to store.
pub fn execute(
    cmd: &LifecycleCommands,
    did: &str,
    current: Option<LifecycleRecord>,
    all: &Vec<LifecycleRecord>,
    now: u64,
) -> (r: Result<LifecycleEffect, String>)
    requires
        *cmd is List ==> dids_displayable(all@),
        *cmd is Reap ==> changed_dids_displayable(all@, now),
    ensures
        match cmd {
            LifecycleCommands::Status => r matches Ok(eff) && eff.writes@.len() == 0
                && outputs_view(eff.outputs@) == status_outputs(did@, current, now),
            LifecycleCommands::List => r matches Ok(eff) && eff.writes@.len() == 0
                && outputs_view(eff.outputs@) == list_outputs(all@),
            LifecycleCommands::Reap => r matches Ok(eff) && eff.writes@ == reap_writes(all@, now)
                && outputs_view(eff.outputs@) == reap_outputs(all@, now),
            _ => transition_post(*cmd, did@, current, now, r),
        },
{
    match cmd {
        LifecycleCommands::Status => Ok(LifecycleEffect {
            outputs: show_status(did, &current, now),
            writes: Vec::new(),
        }),
        LifecycleCommands::List => Ok(LifecycleEffect { outputs: list_agents(all), writes: Vec::new() }),
        LifecycleCommands::Reap => Ok(reap(all, now)),
        LifecycleCommands::Activate => {
            let had = current.is_some();
            match activate(did, current, now) {
                Err(e) => Err(error_message(e)),
                Ok(rec) => {
                    let mut msg = concat("Agent ", did);
                    if had {
                        push_all(&mut msg, " reactivated");
                    } else {
                        push_all(&mut msg, " activated (immunity period: 14 days)");
                    }
                    let outputs = vec![status_line(msg)];
                    assert(outputs_view(outputs@) =~= seq![
                        OutputView::Status(transition_message(*cmd, did@, had)),
                    ]);
                    Ok(LifecycleEffect { outputs, writes: vec![rec] })
                },
            }
        },
        LifecycleCommands::Hibernate => {
            match hibernate(current, now) {
                Err(e) => Err(error_message(e)),
                Ok(rec) => {
                    let mut msg = concat("Agent ", did);
                    push_all(&mut msg, " hibernating (state preserved)");
                    let outputs = vec![status_line(msg)];
                    assert(outputs_view(outputs@) =~= seq![
                        OutputView::Status(transition_message(*cmd, did@, true)),
                    ]);
                    Ok(LifecycleEffect { outputs, writes: vec![rec] })
                },
            }
        },
        LifecycleCommands::Reactivate => {
            match reactivate(current, now) {
                Err(e) => Err(error_message(e)),
                Ok(rec) => {
                    let mut msg = concat("Agent ", did);
                    push_all(&mut msg, " reactivated from hibernation");
                    let outputs = vec![status_line(msg)];
                    assert(outputs_view(outputs@) =~= seq![
                        OutputView::Status(transition_message(*cmd, did@, true)),
                    ]);
                    Ok(LifecycleEffect { outputs, writes: vec![rec] })
                },
            }
        },
    }
}

// ---------------------------------------------------------------------------
// HTTP API responses
// ---------------------------------------------------------------------------

pub struct LifecycleStatusResponse {
    pub did: String,
    pub state: String,
    pub last_activity: u64,
    pub elapsed_secs: u64,
    pub activated_at: Option<u64>,
    pub warning: Option<String>,
}

pub struct AgentSummary {
    pub did: String,
    pub state: String,
    pub last_activity: u64,
}

pub struct ReapTransition {
    pub did: String,
    pub from: String,
    pub to: String,
}

pub struct ReapResult {
    pub transitions: Vec<ReapTransition>,
    pub count: usize,
}

pub struct NoRecordResponse {
    pub message: String,
}

/// The status of agent `did` with record `r` at `now`.
pub fn status_response(did: &str, r: &LifecycleRecord, now: u64) -> (resp: LifecycleStatusResponse)
    ensures
        resp.did@ == did@,
        resp.state@ == state_label(r.state),
        resp.last_activity == r.last_activity,
        resp.elapsed_secs == now.saturating_sub(r.last_activity),
        resp.activated_at == r.activated_at,
        crate::dashboard::opt_view(resp.warning) == zombie_warning(r.state, now.saturating_sub(r.last_activity)),
{
    let elapsed = now.saturating_sub(r.last_activity);
    let warning = zombie_warning_text(r.state, elapsed);
    LifecycleStatusResponse {
        did: did.to_string(),
        state: r.state.label().to_string(),
        last_activity: r.last_activity,
        elapsed_secs: elapsed,
        activated_at: r.activated_at,
        warning,
    }
}

/// The answer when agent has no lifecycle record.
pub fn no_record_response() -> (resp: NoRecordResponse)
    ensures
        resp.message@ == "No lifecycle record. POST /api/v1/lifecycle/activate to register."@,
{
    NoRecordResponse {
        message: "No lifecycle record. POST /api/v1/lifecycle/activate to register.".to_string(),
    }
}

/// The summaries of all records, in order.
pub fn list_states(all: &Vec<LifecycleRecord>) -> (v: Vec<AgentSummary>)
    ensures
        v.len() == all.len(),
        forall|i: int|
            0 <= i < all.len() ==> {
                &&& (#[trigger] v@[i]).did == all@[i].did
                &&& v@[i].state@ == state_label(all@[i].state)
                &&& v@[i].last_activity == all@[i].last_activity
            },
{
    let mut v: Vec<AgentSummary> = Vec::new();
    let mut i: usize = 0;
    while i < all.len()
        invariant
            i <= all.len(),
            v.len() == i,
            forall|k: int|
                0 <= k < i ==> {
                    &&& (#[trigger] v@[k]).did == all@[k].did
                    &&& v@[k].state@ == state_label(all@[k].state)
                    &&& v@[k].last_activity == all@[k].last_activity
                },
        decreases all.len() - i,
    {
        let r = &all[i];
        v.push(AgentSummary {
            did: r.did.clone(),
            state: r.state.label().to_string(),
            last_activity: r.last_activity,
        });
        i = i + 1;
    }
    v
}

/// The transitions of one reaper pass, as the API reports them (full DIDs),
/// with the records to store.
pub fn reap_result(all: &Vec<LifecycleRecord>, now: u64) -> (r: (Vec<LifecycleRecord>, ReapResult))
    ensures
        r.0@ == reap_writes(all@, now),
        r.1.count == r.1.transitions.len(),
        r.1.transitions.len() == r.0.len(),
        forall|i: int|
            0 <= i < r.0.len() ==> {
                &&& (#[trigger] r.1.transitions@[i]).did == r.0@[i].did
                &&& r.1.transitions@[i].to@ == state_label(r.0@[i].state)
            },
{
    let mut writes: Vec<LifecycleRecord> = Vec::new();
    let mut transitions: Vec<ReapTransition> = Vec::new();
    let mut i: usize = 0;
    assert(all@.take(0) =~= Seq::<LifecycleRecord>::empty());
    while i < all.len()
        invariant
            i <= all.len(),
            writes@ == reap_writes(all@.take(i as int), now),
            transitions.len() == writes.len(),
            forall|k: int|
                0 <= k < writes.len() ==> {
                    &&& (#[trigger] transitions@[k]).did == writes@[k].did
                    &&& transitions@[k].to@ == state_label(writes@[k].state)
                },
        decreases all.len() - i,
    {
        assert(all@.take(i + 1).drop_last() =~= all@.take(i as int));
        assert(all@.take(i + 1).last() == all@[i as int]);
        let r = &all[i];
        let old_state = r.state;
        let copy = LifecycleRecord {
            did: r.did.clone(),
            state: r.state,
            last_activity: r.last_activity,
            activated_at: r.activated_at,
            hibernated_at: r.hibernated_at,
            tombstoned_at: r.tombstoned_at,
            derived_from: r.derived_from.clone(),
        };
        assert(copy == *r);
        let next = reap_record(copy, now);
        if next.state != old_state {
            transitions.push(ReapTransition {
                did: next.did.clone(),
                from: old_state.label().to_string(),
                to: next.state.label().to_string(),
            });
            writes.push(next);
        }
        i = i + 1;
    }
    assert(all@.take(all.len() as int) =~= all@);
    let count = transitions.len();
    (writes, ReapResult { transitions, count })
}

} // verus!
