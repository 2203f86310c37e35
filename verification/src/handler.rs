//! The connection handler: one payload in, one command run, one answer out.

use crate::runner::{
    lemma_completed_means_exited, lemma_exit_code_is_not_reported, lemma_failed_spawn_is_reported,
    run_action_at, Outcome, OutcomeView, RunActionView, RunEventView,
};
use crate::wire::{bounded, command_text, lossy_text, PAYLOAD_CAPACITY};
use vstd::prelude::*;
use vstd::utf8::{
    encode_utf8, encode_utf8_decode_utf8, is_ascii_chars, is_ascii_chars_encode_utf8,
};

verus! {

/// The answer to a command that ran to its end.
pub open spec fn acknowledgement() -> Seq<char> {
    "OK"@
}

/// The words that introduce the reason in the answer to a command that could
/// not be run.
pub open spec fn failure_prefix() -> Seq<char> {
    "Failed to execute command: "@
}

/// The text of the answer for each outcome of a run: the acknowledgement if
/// the command ran to its end, otherwise the reason behind the prefix. The
/// exit status and the output of the command are no part of it.
pub open spec fn response_text(outcome: OutcomeView) -> Seq<char> {
    match outcome {
        OutcomeView::Completed => acknowledgement(),
        OutcomeView::Failed(reason) => failure_prefix() + reason,
    }
}

/// Composes the text of the answer to the client.
pub fn response(outcome: &Outcome) -> (text: String)
    ensures
        text@ == response_text(outcome@),
{
    match outcome {
        Outcome::Completed => String::from_str("OK"),
        Outcome::Failed(reason) => {
            let mut text = String::from_str("Failed to execute command: ");
            text.append(reason.as_str());
            text
        },
    }
}

/// The words that introduce the received command on the server's console.
pub open spec fn receipt_prefix() -> Seq<char> {
    "Received: "@
}

/// The stages of a connection, in the order in which it passes through them.
#[derive(Clone, Copy, Debug, PartialEq, Eq, Structural)]
pub enum HandlerState {
    Reading,
    Executing,
    Responding,
    Closed,
}

/// What the program around the library reports to a handler.
#[derive(Debug, PartialEq, Eq)]
pub enum HandlerEvent {
    /// The one read of the connection returned these bytes.
    Received(Vec<u8>),
    /// The one read of the connection failed.
    ReadFailed(String),
    /// The command runner is done.
    Ran(Outcome),
    /// The answer was written and flushed.
    Sent,
    /// The answer could not be written.
    SendFailed(String),
}

/// The mathematical content of a [`HandlerEvent`].
pub enum HandlerEventView {
    Received(Seq<u8>),
    ReadFailed(Seq<char>),
    Ran(OutcomeView),
    Sent,
    SendFailed(Seq<char>),
}

impl View for HandlerEvent {
    type V = HandlerEventView;

    open spec fn view(&self) -> HandlerEventView {
        match self {
            HandlerEvent::Received(bytes) => HandlerEventView::Received(bytes@),
            HandlerEvent::ReadFailed(reason) => HandlerEventView::ReadFailed(reason@),
            HandlerEvent::Ran(outcome) => HandlerEventView::Ran(outcome@),
            HandlerEvent::Sent => HandlerEventView::Sent,
            HandlerEvent::SendFailed(reason) => HandlerEventView::SendFailed(reason@),
        }
    }
}

/// What a handler asks the program around the library to do next.
#[derive(Debug, PartialEq, Eq)]
pub enum HandlerAction {
    /// Print `notice` on standard output and hand `command` to the command
    /// runner.
    Execute { command: String, notice: String },
    /// Print `complaint`, if there is one, on standard error; write `bytes`
    /// to the connection and flush.
    Reply { bytes: Vec<u8>, complaint: Option<String> },
    /// Close the connection.
    Close,
    /// Print `reason` on standard error and close the connection without
    /// writing anything more to it.
    Abandon { reason: String },
    /// The event does not belong to this stage: do nothing.
    Ignore,
}

/// The mathematical content of a [`HandlerAction`].
pub enum HandlerActionView {
    Execute { command: Seq<char>, notice: Seq<char> },
    Reply { bytes: Seq<u8>, complaint: Option<Seq<char>> },
    Close,
    Abandon { reason: Seq<char> },
    Ignore,
}

impl View for HandlerAction {
    type V = HandlerActionView;

    open spec fn view(&self) -> HandlerActionView {
        match self {
            HandlerAction::Execute { command, notice } => HandlerActionView::Execute {
                command: command@,
                notice: notice@,
            },
            HandlerAction::Reply { bytes, complaint } => HandlerActionView::Reply {
                bytes: bytes@,
                complaint: match complaint {
                    Some(text) => Some(text@),
                    None => None,
                },
            },
            HandlerAction::Close => HandlerActionView::Close,
            HandlerAction::Abandon { reason } => HandlerActionView::Abandon { reason: reason@ },
            HandlerAction::Ignore => HandlerActionView::Ignore,
        }
    }
}

/// What is asked for once the command text is known: that it be run, and
/// announced on the console.
pub open spec fn execute_of(command: Seq<char>) -> HandlerActionView {
    HandlerActionView::Execute { command, notice: receipt_prefix() + command }
}

/// What is asked for once the run is over: the answer as bytes, the UTF-8
/// encoding of its text, and for a failure the same text as a complaint.
pub open spec fn reply_of(outcome: OutcomeView) -> HandlerActionView {
    HandlerActionView::Reply {
        bytes: encode_utf8(response_text(outcome)),
        complaint: match outcome {
            OutcomeView::Completed => None,
            OutcomeView::Failed(_) => Some(response_text(outcome)),
        },
    }
}

/// The transitions of a connection. Each stage answers the events that can
/// reach it; any other event leaves the stage as it is and asks for nothing.
///
/// - `Reading`: the bytes of the one read, cut to the payload buffer and
///   decoded leniently, are the command to execute; a failed read ends the
///   connection without an answer.
/// - `Executing`: the outcome of the run decides the answer.
/// - `Responding`: once the answer is out, or could not be written, the
///   connection is closed.
/// - `Closed`: nothing follows.
pub open spec fn handler_step(state: HandlerState, event: HandlerEventView) -> (
    HandlerState,
    HandlerActionView,
) {
    match (state, event) {
        (HandlerState::Reading, HandlerEventView::Received(bytes)) => (
            HandlerState::Executing,
            execute_of(lossy_text(bounded(bytes, PAYLOAD_CAPACITY as nat))),
        ),
        (HandlerState::Reading, HandlerEventView::ReadFailed(reason)) => (
            HandlerState::Closed,
            HandlerActionView::Abandon { reason },
        ),
        (HandlerState::Executing, HandlerEventView::Ran(outcome)) => (
            HandlerState::Responding,
            reply_of(outcome),
        ),
        (HandlerState::Responding, HandlerEventView::Sent) => (
            HandlerState::Closed,
            HandlerActionView::Close,
        ),
        (HandlerState::Responding, HandlerEventView::SendFailed(reason)) => (
            HandlerState::Closed,
            HandlerActionView::Abandon { reason },
        ),
        _ => (state, HandlerActionView::Ignore),
    }
}

/// Asks for `command` to be run and announced.
pub fn execute(command: String) -> (action: HandlerAction)
    ensures
        action@ == execute_of(command@),
{
    let mut notice = String::from_str("Received: ");
    notice.append(command.as_str());
    HandlerAction::Execute { command, notice }
}

/// Asks for the answer to `outcome` to be sent.
pub fn reply(outcome: &Outcome) -> (action: HandlerAction)
    ensures
        action@ == reply_of(outcome@),
{
    let text = response(outcome);
    let bytes = text.as_str().as_bytes_vec();
    let complaint = match outcome {
        Outcome::Completed => None,
        Outcome::Failed(_) => Some(text),
    };
    HandlerAction::Reply { bytes, complaint }
}

impl HandlerState {
    /// Takes one event and says which stage follows and what is to be done.
    pub fn step(self, event: HandlerEvent) -> (next: (HandlerState, HandlerAction))
        ensures
            next.0 == handler_step(self, event@).0,
            next.1@ == handler_step(self, event@).1,
    {
        match (self, event) {
            (HandlerState::Reading, HandlerEvent::Received(bytes)) => (
                HandlerState::Executing,
                execute(command_text(bytes.as_slice())),
            ),
            (HandlerState::Reading, HandlerEvent::ReadFailed(reason)) => (
                HandlerState::Closed,
                HandlerAction::Abandon { reason },
            ),
            (HandlerState::Executing, HandlerEvent::Ran(outcome)) => (
                HandlerState::Responding,
                reply(&outcome),
            ),
            (HandlerState::Responding, HandlerEvent::Sent) => (
                HandlerState::Closed,
                HandlerAction::Close,
            ),
            (HandlerState::Responding, HandlerEvent::SendFailed(reason)) => (
                HandlerState::Closed,
                HandlerAction::Abandon { reason },
            ),
            (state, _) => (state, HandlerAction::Ignore),
        }
    }
}

/// The stage of a connection that was accepted and has since been told
/// `events`.
pub open spec fn handler_state_after(events: Seq<HandlerEventView>) -> HandlerState
    decreases events.len(),
{
    if events.len() == 0 {
        HandlerState::Reading
    } else {
        handler_step(handler_state_after(events.drop_last()), events.last()).0
    }
}

/// What the handler of such a connection asks for in answer to the event at
/// position `i`.
pub open spec fn handler_action_at(events: Seq<HandlerEventView>, i: int) -> HandlerActionView
    recommends
        0 <= i < events.len(),
{
    handler_step(handler_state_after(events.take(i)), events[i]).1
}

/// The place of a stage in the order of a connection.
pub open spec fn handler_rank(state: HandlerState) -> nat {
    match state {
        HandlerState::Reading => 0,
        HandlerState::Executing => 1,
        HandlerState::Responding => 2,
        HandlerState::Closed => 3,
    }
}

/// A connection never returns to an earlier stage, whatever its handler is
/// told.
pub proof fn lemma_connection_never_goes_back(events: Seq<HandlerEventView>, i: int, j: int)
    requires
        0 <= i <= j <= events.len(),
    ensures
        handler_rank(handler_state_after(events.take(i))) <= handler_rank(
            handler_state_after(events.take(j)),
        ),
    decreases j - i,
{
    if i < j {
        lemma_connection_never_goes_back(events, i, j - 1);
        assert(events.take(j).drop_last() =~= events.take(j - 1));
    }
}

/// The stage after the event at position `i` is the one that the transition
/// at that position leads to.
proof fn lemma_handler_state_unfolds(events: Seq<HandlerEventView>, i: int)
    requires
        0 <= i < events.len(),
    ensures
        handler_state_after(events.take(i + 1)) == handler_step(
            handler_state_after(events.take(i)),
            events[i],
        ).0,
{
    assert(events.take(i + 1).drop_last() =~= events.take(i));
}

/// Commands are not pipelined: a connection has one command executed and no
/// second one, so its handler never has two subprocesses.
pub proof fn lemma_one_command_per_connection(events: Seq<HandlerEventView>, i: int, j: int)
    requires
        0 <= i < j < events.len(),
        handler_action_at(events, i) is Execute,
    ensures
        !(handler_action_at(events, j) is Execute),
{
    lemma_handler_state_unfolds(events, i);
    lemma_connection_never_goes_back(events, i + 1, j);
}

/// A connection is answered at most once.
pub proof fn lemma_one_answer_per_connection(events: Seq<HandlerEventView>, i: int, j: int)
    requires
        0 <= i < j < events.len(),
        handler_action_at(events, i) is Reply,
    ensures
        !(handler_action_at(events, j) is Reply),
{
    lemma_handler_state_unfolds(events, i);
    lemma_connection_never_goes_back(events, i + 1, j);
}

/// A handler is in the stage `Executing` only if it was told what the read
/// returned.
proof fn lemma_executing_follows_receipt(events: Seq<HandlerEventView>, i: int)
    requires
        0 <= i <= events.len(),
        handler_state_after(events.take(i)) == HandlerState::Executing,
    ensures
        exists|k: int| 0 <= k < i && events[k] is Received,
    decreases i,
{
    if i == 0 {
        assert(events.take(0).len() == 0);
    } else {
        lemma_handler_state_unfolds(events, i - 1);
        if handler_state_after(events.take(i - 1)) == HandlerState::Executing {
            lemma_executing_follows_receipt(events, i - 1);
        } else {
            assert(events[i - 1] is Received);
        }
    }
}

/// The answer is written only after the run is over: a handler asks for a
/// reply in answer to the report that the command runner is done, and to
/// nothing else. So the acknowledgement tells the client that the process
/// has been waited for.
pub proof fn lemma_answer_follows_run(events: Seq<HandlerEventView>, i: int)
    requires
        0 <= i < events.len(),
        handler_action_at(events, i) is Reply,
    ensures
        events[i] matches HandlerEventView::Ran(outcome) && handler_action_at(events, i)
            == reply_of(outcome),
        exists|k: int| 0 <= k < i && events[k] is Received,
{
    lemma_executing_follows_receipt(events, i);
}

/// Once a handler has closed or abandoned its connection it asks for nothing
/// more.
pub proof fn lemma_closed_connection_is_silent(events: Seq<HandlerEventView>, i: int, j: int)
    requires
        0 <= i < j < events.len(),
        handler_action_at(events, i) is Close || handler_action_at(events, i) is Abandon,
    ensures
        handler_action_at(events, j) is Ignore,
{
    lemma_handler_state_unfolds(events, i);
    lemma_connection_never_goes_back(events, i + 1, j);
}

/// A connection whose read failed gets no answer: its handler asks for no
/// reply, neither before the failure nor after it.
pub proof fn lemma_failed_read_gets_no_answer(events: Seq<HandlerEventView>, i: int, j: int)
    requires
        0 <= i < events.len(),
        0 <= j < events.len(),
        events[i] is ReadFailed,
        handler_state_after(events.take(i)) == HandlerState::Reading,
    ensures
        !(handler_action_at(events, j) is Reply),
{
    if j < i {
        lemma_connection_never_goes_back(events, j, i);
    } else if j > i {
        lemma_closed_connection_is_silent(events, i, j);
    }
}

/// The acknowledgement on the wire is the two bytes `O` and `K`.
pub proof fn lemma_acknowledgement_bytes()
    ensures
        acknowledgement() == seq!['O', 'K'],
        encode_utf8(acknowledgement()) == seq![0x4Fu8, 0x4Bu8],
{
    reveal_strlit("OK");
    let text = acknowledgement();
    assert(text =~= seq!['O', 'K']);
    assert(is_ascii_chars(text));
    is_ascii_chars_encode_utf8(text);
    assert(text[0] as u8 == 0x4Fu8);
    assert(text[1] as u8 == 0x4Bu8);
    assert(encode_utf8(text) =~= seq![0x4Fu8, 0x4Bu8]);
}

/// A failure is never taken for success. The answer to a command that could
/// not be run is the prefix followed by the reason, whole; it differs from
/// the acknowledgement as text and as bytes, whatever the reason says.
pub proof fn lemma_failure_is_never_acknowledged(reason: Seq<char>)
    ensures
        response_text(OutcomeView::Failed(reason)) == failure_prefix() + reason,
        failure_prefix().len() == 27,
        response_text(OutcomeView::Failed(reason)).skip(27) == reason,
        response_text(OutcomeView::Failed(reason)) != acknowledgement(),
        encode_utf8(response_text(OutcomeView::Failed(reason))) != encode_utf8(acknowledgement()),
        reply_of(OutcomeView::Failed(reason)) != reply_of(OutcomeView::Completed),
{
    reveal_strlit("Failed to execute command: ");
    reveal_strlit("OK");
    let text = response_text(OutcomeView::Failed(reason));
    assert(text.skip(27) =~= reason);
    assert(text.len() != acknowledgement().len());
    encode_utf8_decode_utf8(text);
    encode_utf8_decode_utf8(acknowledgement());
}

/// The acknowledgement means that the process is gone. Where a handler
/// answers with the bytes `OK` to the outcome that a run finished with, that
/// run was told before that the shell had exited.
pub proof fn lemma_acknowledgement_means_exited(
    events: Seq<HandlerEventView>,
    i: int,
    run: Seq<RunEventView>,
    k: int,
)
    requires
        0 <= i < events.len(),
        0 <= k < run.len(),
        handler_action_at(events, i) matches HandlerActionView::Reply { bytes, .. } && bytes
            == seq![0x4Fu8, 0x4Bu8],
        run_action_at(run, k) matches RunActionView::Finish(outcome) && events[i]
            == HandlerEventView::Ran(outcome),
    ensures
        exists|j: int| 0 <= j < k && run[j] is Exited,
{
    lemma_answer_follows_run(events, i);
    lemma_acknowledgement_bytes();
    let outcome = run_action_at(run, k)->Finish_0;
    if let OutcomeView::Failed(reason) = outcome {
        lemma_failure_is_never_acknowledged(reason);
    }
    lemma_completed_means_exited(run, k);
}

/// The cut of a long payload falls exactly behind the last byte that the
/// payload buffer holds: a payload that fills the buffer and goes on is
/// handled as if it had ended there.
pub proof fn lemma_long_payload_is_cut(head: Seq<u8>, tail: Seq<u8>)
    requires
        head.len() == PAYLOAD_CAPACITY,
    ensures
        handler_step(HandlerState::Reading, HandlerEventView::Received(head + tail))
            == handler_step(HandlerState::Reading, HandlerEventView::Received(head)),
        handler_step(HandlerState::Reading, HandlerEventView::Received(head + tail)).1
            == execute_of(lossy_text(head)),
{
    crate::wire::lemma_bytes_beyond_limit_are_dropped(head, tail, PAYLOAD_CAPACITY as nat);
    crate::wire::lemma_bytes_beyond_limit_are_dropped(
        head,
        Seq::<u8>::empty(),
        PAYLOAD_CAPACITY as nat,
    );
    assert(head + Seq::<u8>::empty() =~= head);
}

/// A command that the shell could be started on and waited for is answered
/// with the acknowledgement, whatever the payload was and whatever code the
/// shell exited with: the handler has the decoded payload executed, the run
/// completes, and the reply is the two bytes `OK` with no complaint.
pub proof fn lemma_exited_command_is_acknowledged(payload: Seq<u8>, code: Option<i32>)
    ensures
        ({
            let command = lossy_text(bounded(payload, PAYLOAD_CAPACITY as nat));
            let run = seq![
                RunEventView::Begin(command),
                RunEventView::Spawned,
                RunEventView::Exited(code),
                RunEventView::Released,
            ];
            let events = seq![
                HandlerEventView::Received(payload),
                HandlerEventView::Ran(OutcomeView::Completed),
                HandlerEventView::Sent,
            ];
            &&& handler_action_at(events, 0) == execute_of(command)
            &&& run_action_at(run, 3) == RunActionView::Finish(OutcomeView::Completed)
            &&& handler_action_at(events, 1) == HandlerActionView::Reply {
                bytes: seq![0x4Fu8, 0x4Bu8],
                complaint: None,
            }
            &&& handler_action_at(events, 2) == HandlerActionView::Close
            &&& handler_state_after(events) == HandlerState::Closed
        }),
{
    let command = lossy_text(bounded(payload, PAYLOAD_CAPACITY as nat));
    let events = seq![
        HandlerEventView::Received(payload),
        HandlerEventView::Ran(OutcomeView::Completed),
        HandlerEventView::Sent,
    ];
    lemma_exit_code_is_not_reported(command, code);
    lemma_acknowledgement_bytes();
    assert(events.take(0).len() == 0);
    lemma_handler_state_unfolds(events, 0);
    lemma_handler_state_unfolds(events, 1);
    lemma_handler_state_unfolds(events, 2);
    assert(events.take(3) =~= events);
}

/// A command that the shell could not be started on is answered with the
/// reason: the run fails with it, and the reply carries the prefix and the
/// reason as bytes and as a complaint, never the acknowledgement.
pub proof fn lemma_unspawnable_command_is_refused(payload: Seq<u8>, reason: Seq<char>)
    ensures
        ({
            let command = lossy_text(bounded(payload, PAYLOAD_CAPACITY as nat));
            let run = seq![RunEventView::Begin(command), RunEventView::SpawnFailed(reason)];
            let events = seq![
                HandlerEventView::Received(payload),
                HandlerEventView::Ran(OutcomeView::Failed(reason)),
            ];
            &&& run_action_at(run, 1) == RunActionView::Finish(OutcomeView::Failed(reason))
            &&& handler_action_at(events, 1) == HandlerActionView::Reply {
                bytes: encode_utf8(failure_prefix() + reason),
                complaint: Some(failure_prefix() + reason),
            }
            &&& encode_utf8(failure_prefix() + reason) != seq![0x4Fu8, 0x4Bu8]
        }),
{
    let command = lossy_text(bounded(payload, PAYLOAD_CAPACITY as nat));
    let events = seq![
        HandlerEventView::Received(payload),
        HandlerEventView::Ran(OutcomeView::Failed(reason)),
    ];
    lemma_failed_spawn_is_reported(command, reason);
    lemma_failure_is_never_acknowledged(reason);
    lemma_acknowledgement_bytes();
    assert(events.take(0).len() == 0);
    lemma_handler_state_unfolds(events, 0);
    lemma_handler_state_unfolds(events, 1);
}

} // verus!
