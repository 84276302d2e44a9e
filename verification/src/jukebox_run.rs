//! One Jukebox operation against the server, as a state machine: read the server's queue
//! first, send the planned commands one at a time and in order, never again after one
//! fails, and read the queue back at the end. The application performs each action and
//! hands back what came of it.
use vstd::prelude::*;
use crate::jukebox::{
    JukeboxPlaylist, JukeboxCommand, CommandModel, Intent, models, checked_plan, plan_against,
    status_consistent, playlist_status_consistent, failure_text, jukebox_failure_text,
};

verus! {

/// Where an operation is.
#[derive(Debug, Clone, Copy, PartialEq, Eq, Structural)]
pub enum RunPhase {
    /// Reading the server's queue before anything is changed.
    Preflight,
    /// Sending the planned commands.
    Sending,
    /// Reading the queue back after the last command.
    ReadBack,
    Done,
}

pub open spec fn msg_invalid_status() -> Seq<char> { "Invalid Jukebox status from server"@ }
pub open spec fn msg_missing_playlist() -> Seq<char> { "Missing Jukebox playlist"@ }

/// Why a read of the server's queue gave no playlist.
#[derive(Debug, Clone, Copy, PartialEq, Eq, Structural)]
pub enum ReadFailure {
    /// The request failed: with the server's Subsonic error code, or `None` when there
    /// was no usable answer.
    Request(Option<i32>),
    /// The server answered, but with something other than the queue.
    MissingPlaylist,
    /// The queue came, but with a gain or position out of range (floating-point values,
    /// checked by the application that reads them).
    InvalidStatus,
}

/// The status line for a failed read.
pub open spec fn read_failure_text(f: ReadFailure) -> Seq<char> {
    match f {
        ReadFailure::Request(code) => failure_text(code),
        ReadFailure::MissingPlaylist => msg_missing_playlist(),
        ReadFailure::InvalidStatus => msg_invalid_status(),
    }
}

fn read_failure_message(f: ReadFailure) -> (r: String)
    ensures r@ == read_failure_text(f),
{
    match f {
        ReadFailure::Request(code) => jukebox_failure_text(code),
        ReadFailure::MissingPlaylist => String::from_str("Missing Jukebox playlist"),
        ReadFailure::InvalidStatus => invalid_status(),
    }
}

/// One Jukebox operation in progress.
pub struct JukeboxRun {
    phase: RunPhase,
    expected: JukeboxPlaylist,
    intent: Option<Intent>,
    /// The planned commands not sent yet (the one in flight excluded).
    remaining: Vec<JukeboxCommand>,
}

/// What the application is to do next.
pub enum RunAction {
    /// Read the server's queue and status (`get`).
    Read,
    /// Send this command.
    Send(JukeboxCommand),
    /// The operation is over, with the queue read back or the error to show.
    Finish(Result<JukeboxPlaylist, String>),
    /// The event did not belong to this step; nothing to do.
    Wait,
}

/// What came of the last action.
pub enum RunEvent {
    /// The answer to a read.
    Read(Result<JukeboxPlaylist, ReadFailure>),
    /// The answer to a command: on failure, the server's Subsonic error code if it gave one.
    Sent(Result<(), Option<i32>>),
}

/// An operation as plain values.
pub struct RunModel {
    pub phase: RunPhase,
    pub expected: JukeboxPlaylist,
    pub intent: Option<Intent>,
    pub remaining: Seq<CommandModel>,
}

pub enum ActionModel {
    Read,
    Send(CommandModel),
    Finish(Result<JukeboxPlaylist, Seq<char>>),
    Wait,
}

pub enum EventModel {
    Read(Result<JukeboxPlaylist, ReadFailure>),
    Sent(Result<(), Option<i32>>),
}

pub open spec fn action_model(a: RunAction) -> ActionModel {
    match a {
        RunAction::Read => ActionModel::Read,
        RunAction::Send(c) => ActionModel::Send(c.model()),
        RunAction::Finish(Ok(p)) => ActionModel::Finish(Ok(p)),
        RunAction::Finish(Err(e)) => ActionModel::Finish(Err(e@)),
        RunAction::Wait => ActionModel::Wait,
    }
}

pub open spec fn event_model(e: RunEvent) -> EventModel {
    match e {
        RunEvent::Read(r) => EventModel::Read(r),
        RunEvent::Sent(r) => EventModel::Sent(r),
    }
}

/// The next command, or the read back once none is left.
pub open spec fn send_or_read(m: RunModel, rest: Seq<CommandModel>) -> (RunModel, ActionModel) {
    if rest.len() == 0 {
        (RunModel { phase: RunPhase::ReadBack, remaining: rest, ..m }, ActionModel::Read)
    } else {
        (RunModel { phase: RunPhase::Sending, remaining: rest.drop_first(), ..m }, ActionModel::Send(rest[0]))
    }
}

/// The operation finished with `r`.
pub open spec fn finished(m: RunModel, r: Result<JukeboxPlaylist, Seq<char>>) -> (RunModel, ActionModel) {
    (RunModel { phase: RunPhase::Done, ..m }, ActionModel::Finish(r))
}

/// One step of an operation. Before anything is sent the server's queue is read: an
/// error or an inconsistent status ends the operation; otherwise the intent is planned
/// against what was read (refused when the queue changed since it was shown) and the
/// first command sent. Each command that succeeds is followed by the next, and the last
/// by the read back; a command that fails ends the operation with the fixed failure line
/// (`failure_text`) and nothing more is sent. The read back ends the operation with the
/// queue read. A failed read ends it with `read_failure_text`.
/// An event that does not answer the current step changes nothing.
pub open spec fn run_next(m: RunModel, e: EventModel) -> (RunModel, ActionModel) {
    match (m.phase, e) {
        (RunPhase::Preflight, EventModel::Read(Err(f))) => finished(m, Err(read_failure_text(f))),
        (RunPhase::Preflight, EventModel::Read(Ok(p))) => if !status_consistent(p) {
            finished(RunModel { intent: None, ..m }, Err(msg_invalid_status()))
        } else {
            match m.intent {
                None => finished(m, Err(msg_invalid_status())),
                Some(i) => match checked_plan(m.expected, p, i) {
                    Err(msg) => finished(RunModel { intent: None, ..m }, Err(msg)),
                    Ok(cmds) => send_or_read(RunModel { intent: None, ..m }, cmds),
                },
            }
        },
        (RunPhase::Sending, EventModel::Sent(Ok(()))) => send_or_read(m, m.remaining),
        (RunPhase::Sending, EventModel::Sent(Err(code))) => finished(m, Err(failure_text(code))),
        (RunPhase::ReadBack, EventModel::Read(Ok(p))) => if status_consistent(p) {
            finished(m, Ok(p))
        } else {
            finished(m, Err(msg_invalid_status()))
        },
        (RunPhase::ReadBack, EventModel::Read(Err(f))) => finished(m, Err(read_failure_text(f))),
        _ => (m, ActionModel::Wait),
    }
}

fn invalid_status() -> (r: String)
    ensures r@ == msg_invalid_status(),
{
    String::from_str("Invalid Jukebox status from server")
}

impl JukeboxRun {
    pub closed spec fn model(&self) -> RunModel {
        RunModel {
            phase: self.phase,
            expected: self.expected,
            intent: self.intent,
            remaining: models(self.remaining@),
        }
    }

    /// Starts carrying out `intent` on the server whose queue was shown as `expected`:
    /// the first action is to read the server's queue.
    pub fn start(expected: JukeboxPlaylist, intent: Intent) -> (r: (JukeboxRun, RunAction))
        ensures
            r.0.model() == (RunModel { phase: RunPhase::Preflight, expected, intent: Some(intent),
                remaining: Seq::empty() }),
            r.1 is Read,
    {
        let run = JukeboxRun { phase: RunPhase::Preflight, expected, intent: Some(intent), remaining: Vec::new() };
        assert(models(run.remaining@) =~= Seq::<CommandModel>::empty());
        (run, RunAction::Read)
    }

    /// Where the operation is.
    pub fn phase(&self) -> (r: RunPhase)
        ensures r == self.model().phase,
    {
        self.phase
    }

    fn send_next(&mut self) -> (r: RunAction)
        ensures
            (final(self).model(), action_model(r)) == send_or_read(old(self).model(), old(self).model().remaining),
    {
        if self.remaining.len() == 0 {
            self.phase = RunPhase::ReadBack;
            RunAction::Read
        } else {
            let ghost before = self.remaining@;
            let c = self.remaining.remove(0);
            assert(models(self.remaining@) =~= models(before).drop_first());
            self.phase = RunPhase::Sending;
            RunAction::Send(c)
        }
    }

    fn finish(&mut self, r: Result<JukeboxPlaylist, String>) -> (a: RunAction)
        ensures
            (final(self).model(), action_model(a)) == finished(old(self).model(), match r {
                Ok(p) => Ok(p),
                Err(e) => Err(e@),
            }),
    {
        self.phase = RunPhase::Done;
        RunAction::Finish(r)
    }

    /// Takes what came of the last action and says what to do next (see `run_next`).
    pub fn step(&mut self, event: RunEvent) -> (r: RunAction)
        ensures
            (final(self).model(), action_model(r)) == run_next(old(self).model(), event_model(event)),
    {
        match self.phase {
            RunPhase::Preflight => match event {
                RunEvent::Read(Err(f)) => self.finish(Err(read_failure_message(f))),
                RunEvent::Read(Ok(p)) => {
                    if !playlist_status_consistent(&p) {
                        self.intent = None;
                        return self.finish(Err(invalid_status()));
                    }
                    let intent = self.intent.take();
                    match intent {
                        None => self.finish(Err(invalid_status())),
                        Some(i) => {
                            match plan_against(&self.expected, &p, i) {
                                Err(msg) => self.finish(Err(msg)),
                                Ok(cmds) => {
                                    self.remaining = cmds;
                                    self.send_next()
                                },
                            }
                        },
                    }
                },
                RunEvent::Sent(_) => RunAction::Wait,
            },
            RunPhase::Sending => match event {
                RunEvent::Sent(Ok(())) => self.send_next(),
                RunEvent::Sent(Err(code)) => self.finish(Err(jukebox_failure_text(code))),
                RunEvent::Read(_) => RunAction::Wait,
            },
            RunPhase::ReadBack => match event {
                RunEvent::Read(Ok(p)) => {
                    if playlist_status_consistent(&p) {
                        self.finish(Ok(p))
                    } else {
                        self.finish(Err(invalid_status()))
                    }
                },
                RunEvent::Read(Err(f)) => self.finish(Err(read_failure_message(f))),
                RunEvent::Sent(_) => RunAction::Wait,
            },
            RunPhase::Done => RunAction::Wait,
        }
    }
}

/// Nothing is sent before the server's queue was read, found consistent and equal to the
/// one shown; a failed command ends the operation with the fixed failure line; and a finished
/// operation sends nothing more, whatever comes.
pub proof fn run_laws(m: RunModel, e: EventModel)
    ensures
        (m.phase == RunPhase::Preflight && run_next(m, e).1 is Send) ==> (e matches EventModel::Read(Ok(p))
            && status_consistent(p)
            && crate::media::song_ids(m.expected.entry@) == crate::media::song_ids(p.entry@)),
        m.phase == RunPhase::Sending ==> (e matches EventModel::Sent(Err(code)) ==>
            run_next(m, e).0.phase == RunPhase::Done
            && run_next(m, e).1 == ActionModel::Finish(Err(failure_text(code)))),
        m.phase == RunPhase::Done ==> run_next(m, e).1 is Wait && run_next(m, e).0 == m,
        (m.phase == RunPhase::Sending && e == EventModel::Sent(Ok(()))) ==>
            (if m.remaining.len() == 0 {
                run_next(m, e).1 is Read && run_next(m, e).0.phase == RunPhase::ReadBack
            } else {
                run_next(m, e).1 == ActionModel::Send(m.remaining[0])
                    && run_next(m, e).0.remaining == m.remaining.drop_first()
            }),
{
}

/// The operation after `k` more commands were answered with success.
pub open spec fn after_successes(m: RunModel, k: nat) -> RunModel
    decreases k,
{
    if k == 0 { m } else { run_next(after_successes(m, (k - 1) as nat), EventModel::Sent(Ok(()))).0 }
}

/// While every command succeeds, the commands go out one at a time in the planned order,
/// and the queue is read back once the last has succeeded.
pub proof fn commands_go_out_in_order(m: RunModel, k: nat)
    requires
        m.phase == RunPhase::Sending,
        k <= m.remaining.len(),
    ensures
        after_successes(m, k).phase == RunPhase::Sending,
        after_successes(m, k).remaining == m.remaining.skip(k as int),
        k < m.remaining.len() ==> run_next(after_successes(m, k), EventModel::Sent(Ok(()))).1
            == ActionModel::Send(m.remaining[k as int]),
        k == m.remaining.len() ==> run_next(after_successes(m, k), EventModel::Sent(Ok(()))).1 is Read
            && run_next(after_successes(m, k), EventModel::Sent(Ok(()))).0.phase == RunPhase::ReadBack,
    decreases k,
{
    if k == 0 {
        assert(m.remaining.skip(0) =~= m.remaining);
    } else {
        commands_go_out_in_order(m, (k - 1) as nat);
        let prev = after_successes(m, (k - 1) as nat);
        assert(prev.remaining.drop_first() =~= m.remaining.skip(k as int));
    }
    let cur = after_successes(m, k);
    if k < m.remaining.len() {
        assert(cur.remaining[0] == m.remaining[k as int]);
    }
}

} // verus!
