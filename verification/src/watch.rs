//! The life of one monitor: from the start of its command, through its output,
//! to its exit.
//!
//! A [`Watch`] decides; whoever drives it performs the [`WatchAction`] it asks
//! for, reports the outcome as a [`WatchEvent`], and carries out the session
//! steps that come back.
use vstd::prelude::*;

use crate::delivery::deliver_batch;
use crate::ids::MonitorSeq;
use crate::protocol::SessionStep;
use crate::text::is_blank;

verus! {

/// A burst of output is flushed as one notice after this much quiet, so that a
/// chatty command produces one notice and one wake per burst rather than per
/// line. That the answer to the call comes before every notice does not hang
/// on this delay: the command starts after the answer.
pub const FLUSH_DEBOUNCE_MILLIS: u64 = 800;

/// Hard cap, so that a firehose flushes instead of buffering without bound.
pub const MAX_BATCH_LINES: usize = 50;

/// What a monitor is waiting for.
#[derive(Clone, Copy, Debug, PartialEq, Eq, Structural)]
pub enum WatchPhase {
    /// The command is to be started.
    Starting,
    /// Output of the command is being read.
    Reading,
    /// The output has ended and the exit of the command is awaited.
    Reaping,
    /// Nothing is left to do.
    Finished,
}

/// How a command is to be started.
#[derive(Debug, PartialEq, Eq)]
pub struct SpawnRequest {
    pub program: String,
    pub args: Vec<String>,
    pub pipe_stdout: bool,
    pub pipe_stderr: bool,
    /// Whether the command dies with the monitor that runs it.
    pub kill_on_drop: bool,
}

/// What the driver of a monitor does next.
#[derive(Debug, PartialEq, Eq)]
pub enum WatchAction {
    /// Start the command, and report with [`WatchEvent::Spawned`].
    Spawn(SpawnRequest),
    /// Read the next line, and report with [`WatchEvent::Read`]. If
    /// `flush_after_millis` pass without a line, report
    /// [`WatchEvent::Quiet`] instead; without a limit, wait for the line.
    ReadLine { flush_after_millis: Option<u64> },
    /// Wait for the exit of the command, and report with
    /// [`WatchEvent::Waited`].
    Wait,
    /// Drop the monitor.
    Stop,
}

/// What has happened to a monitor. Errors and exit statuses are given by their
/// text.
#[derive(Debug, PartialEq, Eq)]
pub enum WatchEvent {
    /// The command was started, with or without a readable output, or failed
    /// to start.
    Spawned(Result<bool, String>),
    /// A line was read, or the output ended, or reading failed.
    Read(Result<Option<String>, String>),
    /// The quiet period passed without a line.
    Quiet,
    /// The command exited with a status, or waiting for it failed.
    Waited(Result<String, String>),
}

/// The contents of a [`WatchEvent`].
pub enum WatchEventView {
    Spawned(Result<bool, Seq<char>>),
    Read(Result<Option<Seq<char>>, Seq<char>>),
    Quiet,
    Waited(Result<Seq<char>, Seq<char>>),
}

impl View for WatchEvent {
    type V = WatchEventView;

    open spec fn view(&self) -> WatchEventView {
        match self {
            WatchEvent::Spawned(Ok(stdout)) => WatchEventView::Spawned(Ok(*stdout)),
            WatchEvent::Spawned(Err(error)) => WatchEventView::Spawned(Err(error@)),
            WatchEvent::Read(Ok(line)) => WatchEventView::Read(Ok(line.deep_view())),
            WatchEvent::Read(Err(error)) => WatchEventView::Read(Err(error@)),
            WatchEvent::Quiet => WatchEventView::Quiet,
            WatchEvent::Waited(Ok(status)) => WatchEventView::Waited(Ok(status@)),
            WatchEvent::Waited(Err(error)) => WatchEventView::Waited(Err(error@)),
        }
    }
}

/// The changing part of a monitor: its phase, and the lines that have been read
/// and not yet delivered.
#[verifier::ext_equal]
pub struct WatchState {
    pub phase: WatchPhase,
    pub pending: Seq<Seq<char>>,
}

/// A phase with nothing pending.
pub open spec fn settled(phase: WatchPhase) -> WatchState {
    WatchState { phase, pending: Seq::empty() }
}

/// A monitor that has yet to start its command.
pub open spec fn fresh() -> WatchState {
    settled(WatchPhase::Starting)
}

/// Lines are pending only while output is read; there are fewer of them than
/// make a full batch, and none of them is blank.
pub open spec fn state_ok(s: WatchState) -> bool {
    &&& s.phase != WatchPhase::Reading ==> s.pending.len() == 0
    &&& s.pending.len() < MAX_BATCH_LINES
    &&& forall|i: int| 0 <= i < s.pending.len() ==> !crate::text::blank(#[trigger] s.pending[i])
}

/// The notice of a command that could not be started.
pub open spec fn start_failure_notice(error: Seq<char>) -> Seq<char> {
    "failed to start: "@ + error
}

/// The last notice of a command that was started.
pub open spec fn exit_notice(outcome: Result<Seq<char>, Seq<char>>) -> Seq<char> {
    match outcome {
        Ok(status) => "monitor exited ("@ + status + ")"@,
        Err(error) => "monitor wait error: "@ + error,
    }
}

/// The state after an event, and the batch of lines to be delivered, which is
/// empty if there is nothing to deliver. An event that the phase does not wait
/// for changes nothing.
pub open spec fn step(s: WatchState, event: WatchEventView) -> (WatchState, Seq<Seq<char>>) {
    match (s.phase, event) {
        (WatchPhase::Starting, WatchEventView::Spawned(Ok(stdout))) => (
            settled(
                if stdout {
                    WatchPhase::Reading
                } else {
                    WatchPhase::Reaping
                },
            ),
            Seq::empty(),
        ),
        (WatchPhase::Starting, WatchEventView::Spawned(Err(error))) => (
            settled(WatchPhase::Finished),
            seq![start_failure_notice(error)],
        ),
        (WatchPhase::Reading, WatchEventView::Read(Ok(Some(line)))) => if crate::text::blank(line) {
            (s, Seq::empty())
        } else if s.pending.len() + 1 >= MAX_BATCH_LINES {
            (settled(WatchPhase::Reading), s.pending.push(line))
        } else {
            (
                WatchState { phase: WatchPhase::Reading, pending: s.pending.push(line) },
                Seq::empty(),
            )
        },
        (WatchPhase::Reading, WatchEventView::Read(_)) => (settled(WatchPhase::Reaping), s.pending),
        (WatchPhase::Reading, WatchEventView::Quiet) => (settled(WatchPhase::Reading), s.pending),
        (WatchPhase::Reaping, WatchEventView::Waited(outcome)) => (
            settled(WatchPhase::Finished),
            seq![exit_notice(outcome)],
        ),
        _ => (s, Seq::empty()),
    }
}

/// One monitor: the command it runs, what it watches for, and how far it has
/// come.
pub struct Watch {
    command: String,
    description: String,
    phase: WatchPhase,
    pending: Vec<String>,
}

impl View for Watch {
    type V = WatchState;

    closed spec fn view(&self) -> WatchState {
        WatchState { phase: self.phase, pending: self.pending.deep_view() }
    }
}

impl Watch {
    /// The command that the monitor runs.
    pub closed spec fn spec_command(&self) -> Seq<char> {
        self.command@
    }

    /// What the monitor watches for.
    pub closed spec fn spec_description(&self) -> Seq<char> {
        self.description@
    }

    #[verifier::type_invariant]
    spec fn inv(&self) -> bool {
        state_ok(self@)
    }

    /// A monitor that has yet to start its command.
    pub fn new(command: String, description: String) -> (res: Watch)
        ensures
            res@ == fresh(),
            res.spec_command() == command@,
            res.spec_description() == description@,
    {
        let pending: Vec<String> = Vec::new();
        assert(pending.deep_view() == Seq::<Seq<char>>::empty());
        Watch { command, description, phase: WatchPhase::Starting, pending }
    }

    /// What is to be done next. The quiet period runs only while lines are
    /// pending.
    pub fn action(&self) -> (res: WatchAction)
        ensures
            state_ok(self@),
            match self@.phase {
                WatchPhase::Starting => {
                    &&& res matches WatchAction::Spawn(request)
                    &&& request.program@ == "bash"@
                    &&& request.args.deep_view() == seq!["-lc"@, self.spec_command()]
                    &&& request.pipe_stdout
                    &&& request.pipe_stderr
                    &&& request.kill_on_drop
                },
                WatchPhase::Reading => res == (WatchAction::ReadLine {
                    flush_after_millis: if self@.pending.len() > 0 {
                        Some(FLUSH_DEBOUNCE_MILLIS)
                    } else {
                        None
                    },
                }),
                WatchPhase::Reaping => res == WatchAction::Wait,
                WatchPhase::Finished => res == WatchAction::Stop,
            },
    {
        proof {
            use_type_invariant(self);
        }
        match self.phase {
            WatchPhase::Starting => {
                let mut args: Vec<String> = Vec::new();
                args.push("-lc".to_owned());
                args.push(self.command.clone());
                assert(args.deep_view() == seq!["-lc"@, self.spec_command()]);
                WatchAction::Spawn(
                    SpawnRequest {
                        program: "bash".to_owned(),
                        args,
                        pipe_stdout: true,
                        pipe_stderr: true,
                        kill_on_drop: true,
                    },
                )
            },
            WatchPhase::Reading => {
                let flush_after_millis = if self.pending.len() > 0 {
                    Some(FLUSH_DEBOUNCE_MILLIS)
                } else {
                    None
                };
                WatchAction::ReadLine { flush_after_millis }
            },
            WatchPhase::Reaping => WatchAction::Wait,
            WatchPhase::Finished => WatchAction::Stop,
        }
    }

    /// Takes note of an event, and returns the batch that is to be delivered.
    pub fn advance(&mut self, event: WatchEvent) -> (batch: Vec<String>)
        ensures
            (final(self)@, batch.deep_view()) == step(old(self)@, event@),
            state_ok(final(self)@),
            final(self).spec_command() == old(self).spec_command(),
            final(self).spec_description() == old(self).spec_description(),
    {
        proof {
            use_type_invariant(&*self);
        }
        let mut batch: Vec<String> = Vec::new();
        let ghost before = self@;
        assert(batch.deep_view() == Seq::<Seq<char>>::empty());
        match (self.phase, event) {
            (WatchPhase::Starting, WatchEvent::Spawned(Ok(stdout))) => {
                self.phase = if stdout {
                    WatchPhase::Reading
                } else {
                    WatchPhase::Reaping
                };
            },
            (WatchPhase::Starting, WatchEvent::Spawned(Err(error))) => {
                self.phase = WatchPhase::Finished;
                let mut notice = "failed to start: ".to_owned();
                notice.append(error.as_str());
                batch.push(notice);
            },
            (WatchPhase::Reading, WatchEvent::Read(Ok(Some(line)))) => {
                if !is_blank(line.as_str()) {
                    std::mem::swap(&mut batch, &mut self.pending);
                    batch.push(line);
                    assert(batch.deep_view() == before.pending.push(line@));
                    if batch.len() < MAX_BATCH_LINES {
                        std::mem::swap(&mut batch, &mut self.pending);
                    }
                }
            },
            (WatchPhase::Reading, WatchEvent::Read(_)) => {
                std::mem::swap(&mut batch, &mut self.pending);
                self.phase = WatchPhase::Reaping;
            },
            (WatchPhase::Reading, WatchEvent::Quiet) => {
                std::mem::swap(&mut batch, &mut self.pending);
            },
            (WatchPhase::Reaping, WatchEvent::Waited(outcome)) => {
                self.phase = WatchPhase::Finished;
                let notice = match outcome {
                    Ok(status) => {
                        let mut text = "monitor exited (".to_owned();
                        text.append(status.as_str());
                        text.append(")");
                        text
                    },
                    Err(error) => {
                        let mut text = "monitor wait error: ".to_owned();
                        text.append(error.as_str());
                        text
                    },
                };
                batch.push(notice);
            },
            _ => {},
        }
        batch
    }

    /// Takes note of an event, and returns what is to be done to the session,
    /// in order.
    pub fn observe(&mut self, seq: &mut MonitorSeq, event: WatchEvent) -> (steps: Vec<SessionStep>)
        ensures
            final(self)@ == step(old(self)@, event@).0,
            state_ok(final(self)@),
            final(self).spec_command() == old(self).spec_command(),
            final(self).spec_description() == old(self).spec_description(),
            steps.deep_view() == crate::delivery::delivery(
                old(seq)@,
                old(self).spec_description(),
                step(old(self)@, event@).1,
            ),
            final(seq)@ == crate::delivery::seq_after(old(seq)@, step(old(self)@, event@).1),
    {
        let batch = self.advance(event);
        deliver_batch(seq, self.description.as_str(), batch)
    }
}

/// A monitor starts out with its command unstarted and no line pending.
pub proof fn fresh_holds_nothing()
    ensures
        fresh().phase == WatchPhase::Starting,
        fresh().pending.len() == 0,
{
}

/// What the invariant of a monitor says, in numbers and characters: at most
/// forty-nine lines are pending, only while output is read, and each of them
/// holds a character other than white space.
pub proof fn state_ok_says(s: WatchState, i: int)
    requires
        state_ok(s),
    ensures
        s.phase != WatchPhase::Reading ==> s.pending.len() == 0,
        s.pending.len() < 50,
        0 <= i < s.pending.len() ==> exists|k: int|
            0 <= k < s.pending[i].len() && !crate::text::white_space(#[trigger] s.pending[i][k]),
{
    if 0 <= i < s.pending.len() {
        assert(!crate::text::blank(s.pending[i]));
    }
}

/// A command that was started is read from if it can be, and awaited otherwise.
/// There is nothing to deliver yet.
pub proof fn start_leads_on(s: WatchState, stdout: bool)
    requires
        s.phase == WatchPhase::Starting,
    ensures
        ({
            let (next, batch) = step(s, WatchEventView::Spawned(Ok(stdout)));
            &&& stdout ==> next.phase == WatchPhase::Reading
            &&& !stdout ==> next.phase == WatchPhase::Reaping
            &&& next.pending.len() == 0
            &&& batch.len() == 0
        }),
{
}

/// A command that could not be started ends the monitor with one line, which
/// tells the error whole.
pub proof fn start_failure_is_told(s: WatchState, error: Seq<char>)
    requires
        s.phase == WatchPhase::Starting,
    ensures
        ({
            let (next, batch) = step(s, WatchEventView::Spawned(Err(error)));
            &&& next.phase == WatchPhase::Finished
            &&& next.pending.len() == 0
            &&& batch == seq!["failed to start: "@ + error]
        }),
        start_failure_notice(error) == "failed to start: "@ + error,
{
}

/// A line that holds a character other than white space is never left out: it
/// becomes, unchanged, the last of the pending lines, or the last line of the
/// batch when it is the fiftieth.
pub proof fn telling_line_is_kept(s: WatchState, line: Seq<char>, i: int)
    requires
        s.phase == WatchPhase::Reading,
        0 <= i < line.len(),
        !crate::text::white_space(line[i]),
    ensures
        ({
            let (next, batch) = step(s, WatchEventView::Read(Ok(Some(line))));
            &&& next.phase == WatchPhase::Reading
            &&& s.pending.len() < 49 ==> next.pending == s.pending + seq![line] && batch.len() == 0
            &&& s.pending.len() >= 49 ==> batch == s.pending + seq![line] && next.pending.len() == 0
        }),
{
    crate::text::one_character_keeps_a_text_from_being_blank(line, i);
    assert(s.pending.push(line) == s.pending + seq![line]);
}

/// A line of white space alone, or of nothing, is left out, and changes
/// nothing.
pub proof fn white_line_is_left_out(s: WatchState, line: Seq<char>)
    requires
        s.phase == WatchPhase::Reading,
        forall|i: int| 0 <= i < line.len() ==> crate::text::white_space(#[trigger] line[i]),
    ensures
        step(s, WatchEventView::Read(Ok(Some(line)))).0 == s,
        step(s, WatchEventView::Read(Ok(Some(line)))).1.len() == 0,
{
}

/// The end of the output, orderly or not, delivers all that is pending, as it
/// stands, and the exit of the command is awaited.
pub proof fn end_of_output_delivers_the_rest(
    s: WatchState,
    ending: Result<Option<Seq<char>>, Seq<char>>,
)
    requires
        s.phase == WatchPhase::Reading,
        !(ending matches Ok(Some(_))),
    ensures
        ({
            let (next, batch) = step(s, WatchEventView::Read(ending));
            &&& next.phase == WatchPhase::Reaping
            &&& next.pending.len() == 0
            &&& batch == s.pending
        }),
{
}

/// A quiet period delivers all that is pending, as it stands, and reading goes
/// on.
pub proof fn quiet_delivers_the_burst(s: WatchState)
    requires
        s.phase == WatchPhase::Reading,
    ensures
        ({
            let (next, batch) = step(s, WatchEventView::Quiet);
            &&& next.phase == WatchPhase::Reading
            &&& next.pending.len() == 0
            &&& batch == s.pending
        }),
{
}

/// The exit of a command ends the monitor with one line, which tells the status
/// that the wait gave.
pub proof fn exit_status_is_told(s: WatchState, status: Seq<char>)
    requires
        s.phase == WatchPhase::Reaping,
    ensures
        ({
            let (next, batch) = step(s, WatchEventView::Waited(Ok(status)));
            &&& next.phase == WatchPhase::Finished
            &&& next.pending.len() == 0
            &&& batch == seq!["monitor exited ("@ + status + ")"@]
        }),
        exit_notice(Ok(status)) == "monitor exited ("@ + status + ")"@,
{
}

/// A wait that fails ends the monitor with one line, which tells the error.
pub proof fn wait_error_is_told(s: WatchState, error: Seq<char>)
    requires
        s.phase == WatchPhase::Reaping,
    ensures
        ({
            let (next, batch) = step(s, WatchEventView::Waited(Err(error)));
            &&& next.phase == WatchPhase::Finished
            &&& next.pending.len() == 0
            &&& batch == seq!["monitor wait error: "@ + error]
        }),
        exit_notice(Err(error)) == "monitor wait error: "@ + error,
{
}

/// Commands that ended differently are reported differently.
pub proof fn last_notice_tells_the_outcome(
    s: WatchState,
    x: Result<Seq<char>, Seq<char>>,
    y: Result<Seq<char>, Seq<char>>,
)
    requires
        s.phase == WatchPhase::Reaping,
        step(s, WatchEventView::Waited(x)).1 == step(s, WatchEventView::Waited(y)).1,
    ensures
        x == y,
{
    reveal_strlit("monitor exited (");
    reveal_strlit("monitor wait error: ");
    reveal_strlit(")");
    let (a, b) = (exit_notice(x), exit_notice(y));
    assert(step(s, WatchEventView::Waited(x)).1[0] == a);
    assert(step(s, WatchEventView::Waited(y)).1[0] == b);
    assert(a[8] == b[8]);
    match (x, y) {
        (Ok(p), Ok(q)) => {
            assert(a.subrange(16, a.len() - 1) == p);
            assert(b.subrange(16, b.len() - 1) == q);
        },
        (Err(p), Err(q)) => {
            assert(a.skip(20) == p);
            assert(b.skip(20) == q);
        },
        _ => {},
    }
}

/// Errors at the start that differ are reported differently.
pub proof fn start_failure_tells_the_error(s: WatchState, x: Seq<char>, y: Seq<char>)
    requires
        s.phase == WatchPhase::Starting,
        step(s, WatchEventView::Spawned(Err(x))).1 == step(s, WatchEventView::Spawned(Err(y))).1,
    ensures
        x == y,
{
    let prefix = "failed to start: "@;
    assert(step(s, WatchEventView::Spawned(Err(x))).1[0] == prefix + x);
    assert(step(s, WatchEventView::Spawned(Err(y))).1[0] == prefix + y);
    assert((prefix + x).skip(prefix.len() as int) == x);
    assert((prefix + y).skip(prefix.len() as int) == y);
}

/// An event that the phase does not wait for changes nothing and delivers
/// nothing.
pub proof fn unawaited_event_changes_nothing(s: WatchState, event: WatchEventView)
    requires
        s.phase == WatchPhase::Starting ==> !(event is Spawned),
        s.phase == WatchPhase::Reading ==> !(event is Read || event is Quiet),
        s.phase == WatchPhase::Reaping ==> !(event is Waited),
    ensures
        step(s, event).0 == s,
        step(s, event).1.len() == 0,
{
}

/// The view of an event shows what has happened.
pub proof fn event_view_shows_the_event(event: WatchEvent)
    ensures
        match event {
            WatchEvent::Spawned(Ok(stdout)) => event@ == WatchEventView::Spawned(Ok(stdout)),
            WatchEvent::Spawned(Err(error)) => event@ == WatchEventView::Spawned(Err(error@)),
            WatchEvent::Read(Ok(Some(line))) => event@ == WatchEventView::Read(Ok(Some(line@))),
            WatchEvent::Read(Ok(None)) => event@ == WatchEventView::Read(Ok(None)),
            WatchEvent::Read(Err(error)) => event@ == WatchEventView::Read(Err(error@)),
            WatchEvent::Quiet => event@ == WatchEventView::Quiet,
            WatchEvent::Waited(Ok(status)) => event@ == WatchEventView::Waited(Ok(status@)),
            WatchEvent::Waited(Err(error)) => event@ == WatchEventView::Waited(Err(error@)),
        },
{
}

} // verus!
