//! Running the configured command for one event, as a state machine.
//!
//! A dispatch resolves the command, spawns it, feeds it the event and waits
//! for it, in that order and once each. The library decides; its caller does
//! the work. The caller performs the action that the machine hands out,
//! reports what happened as an event, and gets the next action back, until the
//! action is to finish.

use crate::json::json_bytes;
use crate::plex::{Payload, PayloadView};
use crate::schema::{encode, payload_document};
use crate::App;
use vstd::prelude::*;

verus! {

/// The ways a dispatch fails.
#[derive(Debug, Clone, Copy, PartialEq, Eq, Structural)]
pub enum DispatchError {
    /// The command's path could not be resolved; nothing was spawned.
    ResolveFailed,
    /// The resolved command could not be started.
    SpawnFailed,
    /// Waiting for the child failed for a reason other than the timeout.
    WaitFailed,
    /// The child outlived the timeout and was killed.
    TimedOut,
}

/// How a dispatch ended.
#[derive(Debug, Clone, Copy, PartialEq, Eq)]
pub enum DispatchOutcome {
    /// The child exited by itself, with this exit code if it had one.
    Completed(Option<i32>),
    Failed(DispatchError),
    /// The child outlived the timeout and could not be killed.
    KillFailed,
}

/// Where a dispatch stands: the step it is about to take, or its end.
#[derive(Debug, Clone, Copy, PartialEq, Eq)]
pub enum Stage {
    Resolve,
    Spawn,
    Feed,
    Wait,
    Kill,
    Done(DispatchOutcome),
}

/// What the caller reports after performing an action.
#[derive(Debug, Clone, Copy, PartialEq, Eq)]
pub enum Event {
    Resolved,
    ResolveFailed,
    Spawned,
    SpawnFailed,
    Fed,
    FeedFailed,
    /// The child exited before the timeout.
    Exited(Option<i32>),
    WaitFailed,
    /// The timeout ran out before the child exited.
    Elapsed,
    Killed,
    KillFailed,
}

/// What the caller is to do next.
#[derive(Debug, Clone, PartialEq, Eq)]
pub enum Action {
    /// Make the command's path absolute and canonical.
    Resolve { cmd: String },
    /// Start the resolved command with a piped standard input and with these
    /// variables added to the environment.
    Spawn { env: Vec<(String, String)> },
    /// Write these bytes to the child's standard input and close it.
    Feed { input: Vec<u8> },
    /// Wait until the child exits, but no longer than this many seconds.
    Wait { seconds: u64 },
    /// Kill the child.
    Kill,
    /// Nothing is left to do.
    Finish(DispatchOutcome),
}

pub enum ActionView {
    Resolve { cmd: Seq<char> },
    Spawn { env: Seq<(Seq<char>, Seq<char>)> },
    Feed { input: Seq<u8> },
    Wait { seconds: u64 },
    Kill,
    Finish(DispatchOutcome),
}

/// The pairs of `env`, each string by its characters.
pub open spec fn env_view(env: Seq<(String, String)>) -> Seq<(Seq<char>, Seq<char>)> {
    env.map_values(|pair: (String, String)| (pair.0@, pair.1@))
}

impl View for Action {
    type V = ActionView;

    open spec fn view(&self) -> ActionView {
        match self {
            Action::Resolve { cmd } => ActionView::Resolve { cmd: cmd@ },
            Action::Spawn { env } => ActionView::Spawn { env: env_view(env@) },
            Action::Feed { input } => ActionView::Feed { input: input@ },
            Action::Wait { seconds } => ActionView::Wait { seconds: *seconds },
            Action::Kill => ActionView::Kill,
            Action::Finish(outcome) => ActionView::Finish(*outcome),
        }
    }
}

/// The variables that a command is started with: the event's name and the
/// titles of its account, server and player.
pub open spec fn command_env_of(record: PayloadView) -> Seq<(Seq<char>, Seq<char>)> {
    seq![
        ("PLEX_EVENT"@, record.event),
        ("PLEX_USER"@, record.account.title),
        ("PLEX_SERVER"@, record.server.title),
        ("PLEX_PLAYER"@, record.player.title),
    ]
}

/// Builds the variables that a command is started with.
pub fn command_env(record: &Payload) -> (env: Vec<(String, String)>)
    ensures
        env_view(env@) == command_env_of(record@),
{
    let mut env: Vec<(String, String)> = Vec::new();
    env.push(("PLEX_EVENT".to_owned(), record.event.clone()));
    env.push(("PLEX_USER".to_owned(), record.account.title.clone()));
    env.push(("PLEX_SERVER".to_owned(), record.server.title.clone()));
    env.push(("PLEX_PLAYER".to_owned(), record.player.title.clone()));
    proof {
        assert(env_view(env@) =~= command_env_of(record@));
    }
    env
}

impl DispatchOutcome {
    /// Whether the dispatch failed: everything but a child that exited by
    /// itself.
    pub open spec fn failed(self) -> bool {
        !(self is Completed)
    }

    /// Whether this outcome is reported as an error; a completed dispatch is
    /// reported as information.
    pub fn is_failure(&self) -> (is: bool)
        ensures
            is == self.failed(),
    {
        match self {
            DispatchOutcome::Completed(_) => false,
            _ => true,
        }
    }
}

/// One dispatch: the stage it has reached, and what it was started with.
#[derive(Debug, Clone, PartialEq, Eq)]
pub struct Dispatch {
    stage: Stage,
    cmd: String,
    timeout: u64,
    record: Payload,
}

pub struct DispatchView {
    pub stage: Stage,
    /// The command's path as it was configured.
    pub cmd: Seq<char>,
    /// The seconds that the child may take.
    pub timeout: u64,
    pub record: PayloadView,
}

impl View for Dispatch {
    type V = DispatchView;

    closed spec fn view(&self) -> DispatchView {
        DispatchView {
            stage: self.stage,
            cmd: self.cmd@,
            timeout: self.timeout,
            record: self.record@,
        }
    }
}

/// The stage that follows `stage` on `event`, or `None` where the event does
/// not belong to the stage. A failed feed does not end the dispatch; a
/// finished dispatch takes no event.
pub open spec fn next_stage(stage: Stage, event: Event) -> Option<Stage> {
    match (stage, event) {
        (Stage::Resolve, Event::Resolved) => Some(Stage::Spawn),
        (Stage::Resolve, Event::ResolveFailed) => Some(
            Stage::Done(DispatchOutcome::Failed(DispatchError::ResolveFailed)),
        ),
        (Stage::Spawn, Event::Spawned) => Some(Stage::Feed),
        (Stage::Spawn, Event::SpawnFailed) => Some(
            Stage::Done(DispatchOutcome::Failed(DispatchError::SpawnFailed)),
        ),
        (Stage::Feed, Event::Fed) => Some(Stage::Wait),
        (Stage::Feed, Event::FeedFailed) => Some(Stage::Wait),
        (Stage::Wait, Event::Exited(code)) => Some(Stage::Done(DispatchOutcome::Completed(code))),
        (Stage::Wait, Event::WaitFailed) => Some(
            Stage::Done(DispatchOutcome::Failed(DispatchError::WaitFailed)),
        ),
        (Stage::Wait, Event::Elapsed) => Some(Stage::Kill),
        (Stage::Kill, Event::Killed) => Some(
            Stage::Done(DispatchOutcome::Failed(DispatchError::TimedOut)),
        ),
        (Stage::Kill, Event::KillFailed) => Some(Stage::Done(DispatchOutcome::KillFailed)),
        _ => None,
    }
}

/// The action that a dispatch asks for at its stage. The child is fed the
/// JSON text of the record's document, and waited for as long as the
/// configuration allows.
pub open spec fn pending(dispatch: DispatchView) -> ActionView {
    match dispatch.stage {
        Stage::Resolve => ActionView::Resolve { cmd: dispatch.cmd },
        Stage::Spawn => ActionView::Spawn { env: command_env_of(dispatch.record) },
        Stage::Feed => ActionView::Feed { input: json_bytes(payload_document(dispatch.record)) },
        Stage::Wait => ActionView::Wait { seconds: dispatch.timeout },
        Stage::Kill => ActionView::Kill,
        Stage::Done(outcome) => ActionView::Finish(outcome),
    }
}

/// The dispatch after `event`: at the next stage where the event belongs to
/// its stage, unchanged where it does not.
pub open spec fn after(dispatch: DispatchView, event: Event) -> DispatchView {
    match next_stage(dispatch.stage, event) {
        Some(stage) => DispatchView { stage, ..dispatch },
        None => dispatch,
    }
}

/// The action that `event` brings: that of the next stage, or none where the
/// event does not belong to the stage.
pub open spec fn answer(dispatch: DispatchView, event: Event) -> Option<ActionView> {
    match next_stage(dispatch.stage, event) {
        Some(_) => Some(pending(after(dispatch, event))),
        None => None,
    }
}

impl Dispatch {
    /// The stage that the dispatch has reached.
    pub fn stage(&self) -> (stage: Stage)
        ensures
            stage == self@.stage,
    {
        self.stage
    }

    /// How the dispatch ended, once it has.
    pub fn outcome(&self) -> (outcome: Option<DispatchOutcome>)
        ensures
            outcome == (match self@.stage {
                Stage::Done(o) => Some(o),
                _ => None,
            }),
    {
        match self.stage {
            Stage::Done(o) => Some(o),
            _ => None,
        }
    }

    /// The action that the dispatch asks for at its stage.
    pub fn action(&self) -> (action: Action)
        ensures
            action@ == pending(self@),
    {
        match self.stage {
            Stage::Resolve => Action::Resolve { cmd: self.cmd.clone() },
            Stage::Spawn => Action::Spawn { env: command_env(&self.record) },
            Stage::Feed => Action::Feed { input: encode(&self.record) },
            Stage::Wait => Action::Wait { seconds: self.timeout },
            Stage::Kill => Action::Kill,
            Stage::Done(outcome) => Action::Finish(outcome),
        }
    }

    /// Takes the report of what happened and answers with the next action.
    ///
    /// Where the event belongs to the stage, the dispatch moves to the stage
    /// that follows and the answer is that stage's action. Any other event
    /// leaves the dispatch as it was and is answered with `None`.
    pub fn step(&mut self, event: Event) -> (action: Option<Action>)
        ensures
            final(self)@ == after(old(self)@, event),
            viewed_action(action) == answer(old(self)@, event),
    {
        let next = match (self.stage, event) {
            (Stage::Resolve, Event::Resolved) => Stage::Spawn,
            (Stage::Resolve, Event::ResolveFailed) => Stage::Done(
                DispatchOutcome::Failed(DispatchError::ResolveFailed),
            ),
            (Stage::Spawn, Event::Spawned) => Stage::Feed,
            (Stage::Spawn, Event::SpawnFailed) => Stage::Done(
                DispatchOutcome::Failed(DispatchError::SpawnFailed),
            ),
            (Stage::Feed, Event::Fed) => Stage::Wait,
            (Stage::Feed, Event::FeedFailed) => Stage::Wait,
            (Stage::Wait, Event::Exited(code)) => Stage::Done(DispatchOutcome::Completed(code)),
            (Stage::Wait, Event::WaitFailed) => Stage::Done(
                DispatchOutcome::Failed(DispatchError::WaitFailed),
            ),
            (Stage::Wait, Event::Elapsed) => Stage::Kill,
            (Stage::Kill, Event::Killed) => Stage::Done(
                DispatchOutcome::Failed(DispatchError::TimedOut),
            ),
            (Stage::Kill, Event::KillFailed) => Stage::Done(DispatchOutcome::KillFailed),
            _ => { return None; },
        };
        self.stage = next;
        Some(self.action())
    }
}

/// What `action` holds, by its view.
pub open spec fn viewed_action(action: Option<Action>) -> Option<ActionView> {
    match action {
        Some(a) => Some(a@),
        None => None,
    }
}

/// Starts the dispatch of `payload` to the command of `app`.
///
/// The dispatch stands before its first step, resolving the command, and
/// holds the record and what it needs of the configuration.
pub fn call_command(app: &App, payload: Payload) -> (dispatch: Dispatch)
    ensures
        dispatch@ == (DispatchView {
            stage: Stage::Resolve,
            cmd: app.cmd@,
            timeout: app.timeout,
            record: payload@,
        }),
{
    Dispatch { stage: Stage::Resolve, cmd: app.cmd.clone(), timeout: app.timeout, record: payload }
}

/// The dispatch after the events of `events`, one after the other.
pub open spec fn run(dispatch: DispatchView, events: Seq<Event>) -> DispatchView
    decreases events.len(),
{
    if events.len() == 0 {
        dispatch
    } else {
        run(after(dispatch, events[0]), events.skip(1))
    }
}

/// The actions that the events of `events` are answered with, in order;
/// events that do not belong to their stage add none.
pub open spec fn issued(dispatch: DispatchView, events: Seq<Event>) -> Seq<ActionView>
    decreases events.len(),
{
    if events.len() == 0 {
        Seq::empty()
    } else {
        let rest = issued(after(dispatch, events[0]), events.skip(1));
        match answer(dispatch, events[0]) {
            Some(action) => seq![action] + rest,
            None => rest,
        }
    }
}

/// How far a stage is along a dispatch.
pub open spec fn rank(stage: Stage) -> nat {
    match stage {
        Stage::Resolve => 0,
        Stage::Spawn => 1,
        Stage::Feed => 2,
        Stage::Wait => 3,
        Stage::Kill => 4,
        Stage::Done(_) => 5,
    }
}

/// Every event that a stage takes moves the dispatch forward: the steps of a
/// dispatch come in one order, and none is taken twice.
pub proof fn lemma_stages_advance(stage: Stage, event: Event)
    requires
        next_stage(stage, event) is Some,
    ensures
        rank(next_stage(stage, event)->0) > rank(stage),
{
}

/// A finished dispatch stays as it is: whatever is reported after its end
/// changes nothing and is answered with no action.
pub proof fn lemma_done_is_final(dispatch: DispatchView, events: Seq<Event>)
    requires
        dispatch.stage is Done,
    ensures
        run(dispatch, events) == dispatch,
        issued(dispatch, events) == Seq::<ActionView>::empty(),
    decreases events.len(),
{
    if events.len() > 0 {
        lemma_done_is_final(dispatch, events.skip(1));
    }
}

/// A command that cannot be resolved is never spawned. Where the first report
/// to a new dispatch is that resolving failed, the dispatch ends as
/// `ResolveFailed`, and the one action it ever hands out after that report is
/// to finish.
pub proof fn lemma_unresolved_is_never_spawned(dispatch: DispatchView, events: Seq<Event>)
    requires
        dispatch.stage == Stage::Resolve,
        events.len() > 0,
        events[0] == Event::ResolveFailed,
    ensures
        run(dispatch, events).stage == Stage::Done(
            DispatchOutcome::Failed(DispatchError::ResolveFailed),
        ),
        issued(dispatch, events) == seq![
            ActionView::Finish(DispatchOutcome::Failed(DispatchError::ResolveFailed)),
        ],
{
    lemma_done_is_final(after(dispatch, events[0]), events.skip(1));
}

/// A child that outlives the timeout is killed and the dispatch ends as
/// `TimedOut`. Once the timeout has run out, the dispatch no longer takes the
/// child's exit: the one action it asks for is the kill, and when the kill is
/// reported the dispatch is over, whatever is reported after it.
pub proof fn lemma_timeout_kills(dispatch: DispatchView, later: Seq<Event>)
    requires
        dispatch.stage == Stage::Wait,
    ensures
        answer(dispatch, Event::Elapsed) == Some(ActionView::Kill),
        forall|event: Event|
            event != Event::Killed && event != Event::KillFailed ==> (#[trigger] answer(
                after(dispatch, Event::Elapsed),
                event,
            )) is None,
        run(dispatch, seq![Event::Elapsed, Event::Killed] + later).stage == Stage::Done(
            DispatchOutcome::Failed(DispatchError::TimedOut),
        ),
        issued(dispatch, seq![Event::Elapsed, Event::Killed] + later) == seq![
            ActionView::Kill,
            ActionView::Finish(DispatchOutcome::Failed(DispatchError::TimedOut)),
        ],
{
    let events = seq![Event::Elapsed, Event::Killed] + later;
    let killing = after(dispatch, Event::Elapsed);
    let over = after(killing, Event::Killed);
    assert(events.skip(1)[0] == Event::Killed);
    assert(events.skip(1).skip(1) =~= later);
    lemma_done_is_final(over, later);
    assert(run(killing, events.skip(1)) == run(over, later));
    assert(run(dispatch, events) == run(killing, events.skip(1)));
    assert(issued(killing, events.skip(1)) =~= seq![
        ActionView::Finish(DispatchOutcome::Failed(DispatchError::TimedOut)),
    ]);
    assert(issued(dispatch, events) =~= seq![
        ActionView::Kill,
        ActionView::Finish(DispatchOutcome::Failed(DispatchError::TimedOut)),
    ]);
}

} // verus!
