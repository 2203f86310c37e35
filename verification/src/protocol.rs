//! The two ends together: what the client sends is what the shell gets, and
//! what the server answers is what the client shows.

use crate::client::{
    client_action_of, connected_notice, debug_quoted, received_prefix, sent_prefix, shown_for,
    ClientActionView, ConnectOutcomeView,
};
use crate::handler::{
    acknowledgement, execute_of, failure_prefix, handler_step, lemma_acknowledgement_bytes,
    reply_of, response_text, HandlerActionView, HandlerEventView, HandlerState,
};
use crate::runner::{
    clear_sequence, run_step, OutcomeView, RunActionView, RunEventView, RunState,
    ShellInvocationView,
};
use crate::wire::{
    bounded, lemma_encoded_text_is_read_back, lossy_text, PAYLOAD_CAPACITY, REPLY_CAPACITY,
};
use vstd::prelude::*;
use vstd::utf8::encode_utf8;

verus! {

/// The bytes that a connected client writes for `message`.
pub open spec fn request_bytes(message: Seq<char>) -> Seq<u8> {
    encode_utf8(message)
}

/// The bytes that the server writes for `outcome`.
pub open spec fn answer_bytes(outcome: OutcomeView) -> Seq<u8> {
    encode_utf8(response_text(outcome))
}

/// A message reaches the shell whole. A message whose UTF-8 encoding fits
/// the payload buffer and arrives in one read is handed to `sh -c` as its
/// single argument, character for character: the client writes its
/// encoding, the handler takes that very text as the command, and the run
/// starts the shell on it.
pub proof fn lemma_message_reaches_shell_whole(message: Seq<char>)
    requires
        encode_utf8(message).len() <= PAYLOAD_CAPACITY,
    ensures
        client_action_of(message, ConnectOutcomeView::Connected) == (ClientActionView::Exchange {
            notice: connected_notice(),
            bytes: request_bytes(message),
            sent_notice: sent_prefix() + debug_quoted(message),
            capacity: REPLY_CAPACITY,
        }),
        handler_step(HandlerState::Reading, HandlerEventView::Received(request_bytes(message)))
            == (HandlerState::Executing, execute_of(message)),
        run_step(RunState::Idle, RunEventView::Begin(message)) == (
            RunState::Spawning,
            RunActionView::Spawn {
                clear: clear_sequence(),
                invocation: ShellInvocationView {
                    interpreter: "sh"@,
                    flag: "-c"@,
                    script: message,
                },
            },
        ),
{
    lemma_encoded_text_is_read_back(message, PAYLOAD_CAPACITY as nat);
}

/// The client shows the acknowledgement as the server meant it: for a
/// command that ran to its end the server writes the bytes `OK`, and a
/// client whose read returns them shows `OK` behind the prefix.
pub proof fn lemma_acknowledgement_is_shown()
    ensures
        answer_bytes(OutcomeView::Completed) == seq![0x4Fu8, 0x4Bu8],
        reply_of(OutcomeView::Completed) == (HandlerActionView::Reply {
            bytes: answer_bytes(OutcomeView::Completed),
            complaint: None,
        }),
        shown_for(answer_bytes(OutcomeView::Completed)) == received_prefix() + acknowledgement(),
{
    lemma_acknowledgement_bytes();
    lemma_encoded_text_is_read_back(acknowledgement(), REPLY_CAPACITY as nat);
}

/// The client shows a failure as the server meant it: while the answer fits
/// the reply buffer, the client shows the prefix and the reason in full.
pub proof fn lemma_failure_is_shown(reason: Seq<char>)
    requires
        answer_bytes(OutcomeView::Failed(reason)).len() <= REPLY_CAPACITY,
    ensures
        shown_for(answer_bytes(OutcomeView::Failed(reason))) == received_prefix() + (
        failure_prefix() + reason),
{
    lemma_encoded_text_is_read_back(
        response_text(OutcomeView::Failed(reason)),
        REPLY_CAPACITY as nat,
    );
}

/// Of an answer that does not fit the reply buffer the client shows the
/// first bytes that do, and only those: two answers that agree on them are
/// shown alike.
pub proof fn lemma_long_answer_is_shown_in_part(outcome: OutcomeView, other: Seq<u8>)
    requires
        answer_bytes(outcome).len() > REPLY_CAPACITY,
        other.len() >= REPLY_CAPACITY,
        other.take(REPLY_CAPACITY as int) == answer_bytes(outcome).take(REPLY_CAPACITY as int),
    ensures
        shown_for(answer_bytes(outcome)) == received_prefix() + lossy_text(
            answer_bytes(outcome).take(REPLY_CAPACITY as int),
        ),
        shown_for(other) == shown_for(answer_bytes(outcome)),
        bounded(answer_bytes(outcome), REPLY_CAPACITY as nat).len() == REPLY_CAPACITY,
{
    assert(other.take(other.len() as int) =~= other);
}

} // verus!
