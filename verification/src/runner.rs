//! The command runner: what is handed to the shell, what is done with the
//! lines that the command prints, and the order of the steps of one run.

use vstd::prelude::*;

verus! {

/// A command line for the shell, as three strings: the interpreter, the flag
/// that makes it read a script from its next argument, and the script.
#[derive(Debug, PartialEq, Eq)]
pub struct ShellInvocation {
    pub interpreter: String,
    pub flag: String,
    pub script: String,
}

/// The mathematical content of a [`ShellInvocation`].
pub struct ShellInvocationView {
    pub interpreter: Seq<char>,
    pub flag: Seq<char>,
    pub script: Seq<char>,
}

impl View for ShellInvocation {
    type V = ShellInvocationView;

    open spec fn view(&self) -> ShellInvocationView {
        ShellInvocationView {
            interpreter: self.interpreter@,
            flag: self.flag@,
            script: self.script@,
        }
    }
}

/// How a command reaches the shell: as the single argument after `-c`,
/// character for character. Nothing is split, quoted or escaped, so pipes,
/// redirections and chains of commands mean to the shell what they mean in
/// a terminal.
pub open spec fn shell_invocation_of(command: Seq<char>) -> ShellInvocationView {
    ShellInvocationView { interpreter: "sh"@, flag: "-c"@, script: command }
}

/// Builds the shell's command line for `command`.
pub fn shell_invocation(command: String) -> (invocation: ShellInvocation)
    ensures
        invocation@ == shell_invocation_of(command@),
{
    ShellInvocation {
        interpreter: String::from_str("sh"),
        flag: String::from_str("-c"),
        script: command,
    }
}

/// The escape sequence that wipes the console and puts the cursor in its top
/// left corner: erase display, then cursor to row 1, column 1.
pub open spec fn clear_sequence() -> Seq<char> {
    "\x1B[2J\x1B[1;1H"@
}

/// What the server writes to its own console before it starts a command.
pub fn console_clear() -> (sequence: String)
    ensures
        sequence@ == clear_sequence(),
{
    String::from_str("\x1B[2J\x1B[1;1H")
}

/// One of the two output streams, of the command or of the server's console.
#[derive(Clone, Copy, Debug, PartialEq, Eq, Structural)]
pub enum Stream {
    Stdout,
    Stderr,
}

/// What one attempt to read a line from a pipe of the command brought: the
/// line without its terminator, or the description of the failure.
#[derive(Debug, PartialEq, Eq)]
pub enum LineRead {
    Line(String),
    Failed(String),
}

/// The mathematical content of a [`LineRead`].
pub enum LineReadView {
    Line(Seq<char>),
    Failed(Seq<char>),
}

impl View for LineRead {
    type V = LineReadView;

    open spec fn view(&self) -> LineReadView {
        match self {
            LineRead::Line(line) => LineReadView::Line(line@),
            LineRead::Failed(reason) => LineReadView::Failed(reason@),
        }
    }
}

/// One write to the server's console: the stream and the text, which ends in
/// a line feed and goes out in one piece.
#[derive(Debug, PartialEq, Eq)]
pub struct ConsoleWrite {
    pub target: Stream,
    pub text: String,
}

/// The mathematical content of a [`ConsoleWrite`].
pub struct ConsoleWriteView {
    pub target: Stream,
    pub text: Seq<char>,
}

impl View for ConsoleWrite {
    type V = ConsoleWriteView;

    open spec fn view(&self) -> ConsoleWriteView {
        ConsoleWriteView { target: self.target, text: self.text@ }
    }
}

/// The words that introduce a failed read of `source` on the console.
pub open spec fn read_failure_prefix(source: Stream) -> Seq<char> {
    match source {
        Stream::Stdout => "Failed to read stdout: "@,
        Stream::Stderr => "Failed to read stderr: "@,
    }
}

/// What the server writes for one read of a pipe. A line of the command's
/// standard output goes to the server's standard output and a line of its
/// standard error to the server's standard error, each whole and followed by
/// a line feed. A failed read is reported on standard error, whichever pipe
/// it came from.
pub open spec fn console_write_of(source: Stream, read: LineReadView) -> ConsoleWriteView {
    match read {
        LineReadView::Line(line) => ConsoleWriteView { target: source, text: line + seq!['\n'] },
        LineReadView::Failed(reason) => ConsoleWriteView {
            target: Stream::Stderr,
            text: read_failure_prefix(source) + reason + seq!['\n'],
        },
    }
}

/// Decides what to write to the console for one read of the pipe `source`.
/// Every read gets exactly one write, and none ends the draining: a failure
/// on one pipe is reported and the reader goes on.
pub fn drain_line(source: Stream, read: LineRead) -> (write: ConsoleWrite)
    ensures
        write@ == console_write_of(source, read@),
{
    proof {
        reveal_strlit("\n");
    }
    match read {
        LineRead::Line(line) => {
            let mut text = line;
            text.append("\n");
            assert("\n"@ =~= seq!['\n']);
            ConsoleWrite { target: source, text }
        },
        LineRead::Failed(reason) => {
            let mut text = match source {
                Stream::Stdout => String::from_str("Failed to read stdout: "),
                Stream::Stderr => String::from_str("Failed to read stderr: "),
            };
            text.append(reason.as_str());
            text.append("\n");
            assert("\n"@ =~= seq!['\n']);
            ConsoleWrite { target: Stream::Stderr, text }
        },
    }
}

/// Every write is one whole line: what is written for a read ends in a line
/// feed and holds no other text than the line that was read, or the report
/// of the failure; and a line stays on the stream that it came from.
pub proof fn lemma_every_write_is_a_whole_line(source: Stream, read: LineReadView)
    ensures
        console_write_of(source, read).text.last() == '\n',
        read matches LineReadView::Line(line) ==> console_write_of(source, read)
            == (ConsoleWriteView { target: source, text: line.push('\n') }),
        read matches LineReadView::Failed(reason) ==> console_write_of(source, read)
            == (ConsoleWriteView {
            target: Stream::Stderr,
            text: (read_failure_prefix(source) + reason).push('\n'),
        }),
{
    match read {
        LineReadView::Line(line) => {
            assert(line + seq!['\n'] =~= line.push('\n'));
        },
        LineReadView::Failed(reason) => {
            assert(read_failure_prefix(source) + reason + seq!['\n'] =~= (read_failure_prefix(
                source,
            ) + reason).push('\n'));
        },
    }
}

/// How a run ended, as far as the connection handler is told: the command
/// ran to its end, with whatever exit status, or the operating system refused
/// to start it or to wait for it.
#[derive(Debug, PartialEq, Eq)]
pub enum Outcome {
    Completed,
    Failed(String),
}

/// The mathematical content of an [`Outcome`].
pub enum OutcomeView {
    Completed,
    Failed(Seq<char>),
}

impl View for Outcome {
    type V = OutcomeView;

    open spec fn view(&self) -> OutcomeView {
        match self {
            Outcome::Completed => OutcomeView::Completed,
            Outcome::Failed(reason) => OutcomeView::Failed(reason@),
        }
    }
}

/// The stages of one run, in the order in which a run passes through them.
/// A subprocess exists in `Running` and `Exited` and in no other stage.
#[derive(Clone, Copy, Debug, PartialEq, Eq, Structural)]
pub enum RunState {
    Idle,
    Spawning,
    Running,
    Exited,
    Done,
}

/// What the program around the library reports to a run.
#[derive(Debug, PartialEq, Eq)]
pub enum RunEvent {
    /// The handler asks for this command to be run.
    Begin(String),
    /// The shell was started.
    Spawned,
    /// The shell could not be started.
    SpawnFailed(String),
    /// Waiting returned: the shell has exited, with this code if it has one.
    Exited(Option<i32>),
    /// Waiting for the shell failed.
    WaitFailed(String),
    /// The handle of the subprocess was given up.
    Released,
}

/// The mathematical content of a [`RunEvent`].
pub enum RunEventView {
    Begin(Seq<char>),
    Spawned,
    SpawnFailed(Seq<char>),
    Exited(Option<i32>),
    WaitFailed(Seq<char>),
    Released,
}

impl View for RunEvent {
    type V = RunEventView;

    open spec fn view(&self) -> RunEventView {
        match self {
            RunEvent::Begin(command) => RunEventView::Begin(command@),
            RunEvent::Spawned => RunEventView::Spawned,
            RunEvent::SpawnFailed(reason) => RunEventView::SpawnFailed(reason@),
            RunEvent::Exited(code) => RunEventView::Exited(*code),
            RunEvent::WaitFailed(reason) => RunEventView::WaitFailed(reason@),
            RunEvent::Released => RunEventView::Released,
        }
    }
}

/// What a run asks the program around the library to do next.
#[derive(Debug, PartialEq, Eq)]
pub enum RunAction {
    /// Write `clear` to the console and flush it, then start `invocation`
    /// with both of its output streams on pipes.
    Spawn { clear: String, invocation: ShellInvocation },
    /// Start one reader on each pipe and wait for the shell to exit.
    Attend,
    /// Give up the handle of the subprocess.
    Release,
    /// Hand this outcome to the connection handler.
    Finish(Outcome),
    /// The event does not belong to this stage: do nothing.
    Ignore,
}

/// The mathematical content of a [`RunAction`].
pub enum RunActionView {
    Spawn { clear: Seq<char>, invocation: ShellInvocationView },
    Attend,
    Release,
    Finish(OutcomeView),
    Ignore,
}

impl View for RunAction {
    type V = RunActionView;

    open spec fn view(&self) -> RunActionView {
        match self {
            RunAction::Spawn { clear, invocation } => RunActionView::Spawn {
                clear: clear@,
                invocation: invocation@,
            },
            RunAction::Attend => RunActionView::Attend,
            RunAction::Release => RunActionView::Release,
            RunAction::Finish(outcome) => RunActionView::Finish(outcome@),
            RunAction::Ignore => RunActionView::Ignore,
        }
    }
}

/// The transitions of a run. Each stage answers the events that can reach
/// it; any other event leaves the stage as it is and asks for nothing.
///
/// - `Idle`, asked to begin: clear the console and start the shell.
/// - `Spawning`: once the shell runs, attend to it; if it could not be
///   started, the run is over and has failed with the reason given.
/// - `Running`: once the shell has exited, whatever its exit code, give up
///   its handle; if waiting failed, the run is over and has failed.
/// - `Exited`, the handle given up: the run is over and has completed.
/// - `Done`: nothing follows.
pub open spec fn run_step(state: RunState, event: RunEventView) -> (RunState, RunActionView) {
    match (state, event) {
        (RunState::Idle, RunEventView::Begin(command)) => (
            RunState::Spawning,
            RunActionView::Spawn {
                clear: clear_sequence(),
                invocation: shell_invocation_of(command),
            },
        ),
        (RunState::Spawning, RunEventView::Spawned) => (RunState::Running, RunActionView::Attend),
        (RunState::Spawning, RunEventView::SpawnFailed(reason)) => (
            RunState::Done,
            RunActionView::Finish(OutcomeView::Failed(reason)),
        ),
        (RunState::Running, RunEventView::Exited(_)) => (RunState::Exited, RunActionView::Release),
        (RunState::Running, RunEventView::WaitFailed(reason)) => (
            RunState::Done,
            RunActionView::Finish(OutcomeView::Failed(reason)),
        ),
        (RunState::Exited, RunEventView::Released) => (
            RunState::Done,
            RunActionView::Finish(OutcomeView::Completed),
        ),
        _ => (state, RunActionView::Ignore),
    }
}

impl RunState {
    /// Takes one event and says which stage follows and what is to be done.
    pub fn step(self, event: RunEvent) -> (next: (RunState, RunAction))
        ensures
            next.0 == run_step(self, event@).0,
            next.1@ == run_step(self, event@).1,
    {
        match (self, event) {
            (RunState::Idle, RunEvent::Begin(command)) => (
                RunState::Spawning,
                RunAction::Spawn { clear: console_clear(), invocation: shell_invocation(command) },
            ),
            (RunState::Spawning, RunEvent::Spawned) => (RunState::Running, RunAction::Attend),
            (RunState::Spawning, RunEvent::SpawnFailed(reason)) => (
                RunState::Done,
                RunAction::Finish(Outcome::Failed(reason)),
            ),
            (RunState::Running, RunEvent::Exited(_)) => (RunState::Exited, RunAction::Release),
            (RunState::Running, RunEvent::WaitFailed(reason)) => (
                RunState::Done,
                RunAction::Finish(Outcome::Failed(reason)),
            ),
            (RunState::Exited, RunEvent::Released) => (
                RunState::Done,
                RunAction::Finish(Outcome::Completed),
            ),
            (state, _) => (state, RunAction::Ignore),
        }
    }
}

/// The stage of a run that started idle and has since been told `events`.
pub open spec fn run_state_after(events: Seq<RunEventView>) -> RunState
    decreases events.len(),
{
    if events.len() == 0 {
        RunState::Idle
    } else {
        run_step(run_state_after(events.drop_last()), events.last()).0
    }
}

/// What such a run asks for in answer to the event at position `i`.
pub open spec fn run_action_at(events: Seq<RunEventView>, i: int) -> RunActionView
    recommends
        0 <= i < events.len(),
{
    run_step(run_state_after(events.take(i)), events[i]).1
}

/// The place of a stage in the order of a run.
pub open spec fn stage_rank(state: RunState) -> nat {
    match state {
        RunState::Idle => 0,
        RunState::Spawning => 1,
        RunState::Running => 2,
        RunState::Exited => 3,
        RunState::Done => 4,
    }
}

/// Whether a subprocess exists in this stage.
pub open spec fn holds_subprocess(state: RunState) -> bool {
    state == RunState::Running || state == RunState::Exited
}

/// A run never returns to an earlier stage, whatever it is told.
pub proof fn lemma_run_never_goes_back(events: Seq<RunEventView>, i: int, j: int)
    requires
        0 <= i <= j <= events.len(),
    ensures
        stage_rank(run_state_after(events.take(i))) <= stage_rank(
            run_state_after(events.take(j)),
        ),
    decreases j - i,
{
    if i < j {
        lemma_run_never_goes_back(events, i, j - 1);
        assert(events.take(j).drop_last() =~= events.take(j - 1));
    }
}

/// The stage after the event at position `i` is the one that the transition
/// at that position leads to.
proof fn lemma_run_state_unfolds(events: Seq<RunEventView>, i: int)
    requires
        0 <= i < events.len(),
    ensures
        run_state_after(events.take(i + 1)) == run_step(
            run_state_after(events.take(i)),
            events[i],
        ).0,
{
    assert(events.take(i + 1).drop_last() =~= events.take(i));
}

/// No retries: a run starts the shell at most once. Once it has asked for
/// the shell to be started it never asks again, so no second subprocess can
/// come to exist beside the first.
pub proof fn lemma_shell_started_at_most_once(events: Seq<RunEventView>, i: int, j: int)
    requires
        0 <= i < j < events.len(),
        run_action_at(events, i) is Spawn,
    ensures
        !(run_action_at(events, j) is Spawn),
{
    lemma_run_state_unfolds(events, i);
    lemma_run_never_goes_back(events, i + 1, j);
}

/// A run reports one outcome and is then over: after it has finished, every
/// further event is ignored and the run stays done.
pub proof fn lemma_outcome_reported_once(events: Seq<RunEventView>, i: int, j: int)
    requires
        0 <= i < j < events.len(),
        run_action_at(events, i) is Finish,
    ensures
        run_action_at(events, j) is Ignore,
        run_state_after(events.take(j + 1)) == RunState::Done,
{
    lemma_run_state_unfolds(events, i);
    lemma_run_never_goes_back(events, i + 1, j);
    lemma_run_state_unfolds(events, j);
}

/// A run is in the stage `Exited` only if it was told that the shell exited.
proof fn lemma_exited_stage_follows_exit(events: Seq<RunEventView>, i: int)
    requires
        0 <= i <= events.len(),
        run_state_after(events.take(i)) == RunState::Exited,
    ensures
        exists|j: int| 0 <= j < i && events[j] is Exited,
    decreases i,
{
    if i == 0 {
        assert(events.take(0).len() == 0);
    } else {
        lemma_run_state_unfolds(events, i - 1);
        if run_state_after(events.take(i - 1)) == RunState::Exited {
            lemma_exited_stage_follows_exit(events, i - 1);
        } else {
            assert(events[i - 1] is Exited);
        }
    }
}

/// A run reports completion only after it was told that the shell exited:
/// whoever learns that a command completed knows that its process is gone.
pub proof fn lemma_completed_means_exited(events: Seq<RunEventView>, i: int)
    requires
        0 <= i < events.len(),
        run_action_at(events, i) == RunActionView::Finish(OutcomeView::Completed),
    ensures
        exists|j: int| 0 <= j < i && events[j] is Exited,
{
    lemma_exited_stage_follows_exit(events, i);
}

/// A subprocess exists only between the start of the shell and the end of
/// the run: a run holds one only if it was told that the shell was started.
pub proof fn lemma_subprocess_follows_spawn(events: Seq<RunEventView>, i: int)
    requires
        0 <= i <= events.len(),
        holds_subprocess(run_state_after(events.take(i))),
    ensures
        exists|j: int| 0 <= j < i && events[j] is Spawned,
    decreases i,
{
    if i == 0 {
        assert(events.take(0).len() == 0);
    } else {
        lemma_run_state_unfolds(events, i - 1);
        if holds_subprocess(run_state_after(events.take(i - 1))) {
            lemma_subprocess_follows_spawn(events, i - 1);
        } else {
            assert(events[i - 1] is Spawned);
        }
    }
}

/// The exit code is not reported: a command that could be started and waited
/// for completes, and the run says the same whatever code the shell exited
/// with, or if it has none.
pub proof fn lemma_exit_code_is_not_reported(command: Seq<char>, code: Option<i32>)
    ensures
        ({
            let events = seq![
                RunEventView::Begin(command),
                RunEventView::Spawned,
                RunEventView::Exited(code),
                RunEventView::Released,
            ];
            &&& run_action_at(events, 0) == RunActionView::Spawn {
                clear: clear_sequence(),
                invocation: shell_invocation_of(command),
            }
            &&& run_action_at(events, 1) == RunActionView::Attend
            &&& run_action_at(events, 2) == RunActionView::Release
            &&& run_action_at(events, 3) == RunActionView::Finish(OutcomeView::Completed)
            &&& run_state_after(events) == RunState::Done
        }),
{
    let events = seq![
        RunEventView::Begin(command),
        RunEventView::Spawned,
        RunEventView::Exited(code),
        RunEventView::Released,
    ];
    assert(events.take(0).len() == 0);
    lemma_run_state_unfolds(events, 0);
    lemma_run_state_unfolds(events, 1);
    lemma_run_state_unfolds(events, 2);
    lemma_run_state_unfolds(events, 3);
    assert(events.take(4) =~= events);
}

/// A shell that cannot be started ends the run at once, and the run reports
/// the failure with the reason that the operating system gave.
pub proof fn lemma_failed_spawn_is_reported(command: Seq<char>, reason: Seq<char>)
    ensures
        ({
            let events = seq![RunEventView::Begin(command), RunEventView::SpawnFailed(reason)];
            &&& run_action_at(events, 1) == RunActionView::Finish(OutcomeView::Failed(reason))
            &&& run_state_after(events) == RunState::Done
        }),
{
    let events = seq![RunEventView::Begin(command), RunEventView::SpawnFailed(reason)];
    assert(events.take(0).len() == 0);
    lemma_run_state_unfolds(events, 0);
    lemma_run_state_unfolds(events, 1);
    assert(events.take(2) =~= events);
}

} // verus!
