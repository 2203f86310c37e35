use remote_exec::runner::{
    console_clear, drain_line, shell_invocation, ConsoleWrite, LineRead, Outcome, RunAction,
    RunEvent, RunState, ShellInvocation, Stream,
};

fn spawn_of(command: &str) -> RunAction {
    RunAction::Spawn {
        clear: String::from("\x1B[2J\x1B[1;1H"),
        invocation: ShellInvocation {
            interpreter: String::from("sh"),
            flag: String::from("-c"),
            script: String::from(command),
        },
    }
}

fn run_to_exit(command: &str, code: Option<i32>) -> Vec<(RunState, RunAction)> {
    let events = vec![
        RunEvent::Begin(String::from(command)),
        RunEvent::Spawned,
        RunEvent::Exited(code),
        RunEvent::Released,
    ];
    let mut state = RunState::Idle;
    let mut steps = Vec::new();
    for event in events {
        let (next, action) = state.step(event);
        state = next;
        steps.push((next, action));
    }
    steps
}

#[test]
fn the_command_is_the_single_argument_after_the_flag() {
    let invocation = shell_invocation(String::from("echo a | tr a b > /dev/null; true && false"));
    assert_eq!(invocation.interpreter, "sh");
    assert_eq!(invocation.flag, "-c");
    assert_eq!(invocation.script, "echo a | tr a b > /dev/null; true && false");
}

#[test]
fn an_empty_command_is_handed_over_as_it_is() {
    assert_eq!(
        shell_invocation(String::new()),
        ShellInvocation {
            interpreter: String::from("sh"),
            flag: String::from("-c"),
            script: String::new(),
        }
    );
}

#[test]
fn the_console_is_cleared_with_erase_display_and_cursor_home() {
    assert_eq!(console_clear().as_bytes(), b"\x1b[2J\x1b[1;1H");
}

#[test]
fn a_line_of_stdout_goes_to_stdout_whole() {
    assert_eq!(
        drain_line(Stream::Stdout, LineRead::Line(String::from("total 12"))),
        ConsoleWrite { target: Stream::Stdout, text: String::from("total 12\n") }
    );
}

#[test]
fn a_line_of_stderr_goes_to_stderr_whole() {
    assert_eq!(
        drain_line(Stream::Stderr, LineRead::Line(String::from("sh: 1: nope: not found"))),
        ConsoleWrite { target: Stream::Stderr, text: String::from("sh: 1: nope: not found\n") }
    );
}

#[test]
fn an_empty_line_is_still_a_line() {
    assert_eq!(
        drain_line(Stream::Stdout, LineRead::Line(String::new())),
        ConsoleWrite { target: Stream::Stdout, text: String::from("\n") }
    );
}

#[test]
fn a_failed_read_of_stdout_is_reported_on_stderr() {
    assert_eq!(
        drain_line(Stream::Stdout, LineRead::Failed(String::from("stream did not contain valid UTF-8"))),
        ConsoleWrite {
            target: Stream::Stderr,
            text: String::from("Failed to read stdout: stream did not contain valid UTF-8\n"),
        }
    );
}

#[test]
fn a_failed_read_of_stderr_is_reported_on_stderr() {
    assert_eq!(
        drain_line(Stream::Stderr, LineRead::Failed(String::from("broken pipe"))),
        ConsoleWrite {
            target: Stream::Stderr,
            text: String::from("Failed to read stderr: broken pipe\n"),
        }
    );
}

#[test]
fn a_run_passes_through_its_five_stages() {
    let steps = run_to_exit("echo hi", Some(0));
    assert_eq!(
        steps,
        vec![
            (RunState::Spawning, spawn_of("echo hi")),
            (RunState::Running, RunAction::Attend),
            (RunState::Exited, RunAction::Release),
            (RunState::Done, RunAction::Finish(Outcome::Completed)),
        ]
    );
}

#[test]
fn a_nonzero_exit_code_completes_as_well() {
    assert_eq!(run_to_exit("exit 3", Some(3)), run_to_exit("exit 3", Some(0)));
    assert_eq!(
        run_to_exit("exit 3", Some(3))[3],
        (RunState::Done, RunAction::Finish(Outcome::Completed))
    );
}

#[test]
fn a_run_ended_by_a_signal_completes_as_well() {
    assert_eq!(
        run_to_exit("kill -9 $$", None)[3],
        (RunState::Done, RunAction::Finish(Outcome::Completed))
    );
}

#[test]
fn a_shell_that_cannot_be_started_fails_the_run() {
    let (state, _) = RunState::Idle.step(RunEvent::Begin(String::from("true")));
    assert_eq!(
        state.step(RunEvent::SpawnFailed(String::from("No such file or directory (os error 2)"))),
        (
            RunState::Done,
            RunAction::Finish(Outcome::Failed(String::from(
                "No such file or directory (os error 2)"
            )))
        )
    );
}

#[test]
fn a_failed_wait_fails_the_run() {
    assert_eq!(
        RunState::Running.step(RunEvent::WaitFailed(String::from("No child processes (os error 10)"))),
        (
            RunState::Done,
            RunAction::Finish(Outcome::Failed(String::from("No child processes (os error 10)")))
        )
    );
}

#[test]
fn a_run_does_not_start_the_shell_twice() {
    let (state, first) = RunState::Idle.step(RunEvent::Begin(String::from("true")));
    assert_eq!(first, spawn_of("true"));
    assert_eq!(
        state.step(RunEvent::Begin(String::from("true"))),
        (RunState::Spawning, RunAction::Ignore)
    );
}

#[test]
fn a_finished_run_ignores_everything() {
    let events = vec![
        RunEvent::Begin(String::from("true")),
        RunEvent::Spawned,
        RunEvent::SpawnFailed(String::from("late")),
        RunEvent::Exited(Some(0)),
        RunEvent::WaitFailed(String::from("late")),
        RunEvent::Released,
    ];
    for event in events {
        assert_eq!(RunState::Done.step(event), (RunState::Done, RunAction::Ignore));
    }
}

#[test]
fn events_out_of_turn_change_nothing() {
    assert_eq!(RunState::Idle.step(RunEvent::Spawned), (RunState::Idle, RunAction::Ignore));
    assert_eq!(RunState::Idle.step(RunEvent::Released), (RunState::Idle, RunAction::Ignore));
    assert_eq!(
        RunState::Spawning.step(RunEvent::Exited(Some(0))),
        (RunState::Spawning, RunAction::Ignore)
    );
    assert_eq!(
        RunState::Running.step(RunEvent::Released),
        (RunState::Running, RunAction::Ignore)
    );
    assert_eq!(
        RunState::Exited.step(RunEvent::Exited(Some(1))),
        (RunState::Exited, RunAction::Ignore)
    );
}
