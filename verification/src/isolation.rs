//! Connections side by side: handlers share nothing, so what one connection
//! is answered does not depend on what happens to any other.
//!
//! The server runs one handler for each accepted connection, all at the same
//! time, and reports to each what happened on its own connection. This
//! module models that as a history of reports, each addressed to one
//! connection, in the order in which they happened to be made.

use crate::handler::{
    execute_of, handler_state_after, handler_step, reply_of, HandlerActionView, HandlerEventView,
    HandlerState,
};
use crate::runner::OutcomeView;
use crate::wire::{bounded, lossy_text, PAYLOAD_CAPACITY};
use vstd::prelude::*;

verus! {

/// One report to the handler of one connection.
pub struct Delivery {
    pub connection: nat,
    pub event: HandlerEventView,
}

/// The reports in `history` that were addressed to `connection`, in order.
pub open spec fn own_events(history: Seq<Delivery>, connection: nat) -> Seq<HandlerEventView>
    decreases history.len(),
{
    if history.len() == 0 {
        Seq::empty()
    } else if history.last().connection == connection {
        own_events(history.drop_last(), connection).push(history.last().event)
    } else {
        own_events(history.drop_last(), connection)
    }
}

/// The stage of the handler of `connection` after `history`: every handler
/// starts in its first stage, and a report moves the handler that it is
/// addressed to and no other.
pub open spec fn stage_of(history: Seq<Delivery>, connection: nat) -> HandlerState
    decreases history.len(),
{
    if history.len() == 0 {
        HandlerState::Reading
    } else if history.last().connection == connection {
        handler_step(stage_of(history.drop_last(), connection), history.last().event).0
    } else {
        stage_of(history.drop_last(), connection)
    }
}

/// What the server is asked to do in answer to the report at position `i`.
pub open spec fn answer_at(history: Seq<Delivery>, i: int) -> HandlerActionView
    recommends
        0 <= i < history.len(),
{
    handler_step(stage_of(history.take(i), history[i].connection), history[i].event).1
}

/// The handler of a connection is, after any history, where it would be had
/// it been told its own reports and nothing else had happened.
pub proof fn lemma_handlers_share_nothing(history: Seq<Delivery>, connection: nat)
    ensures
        stage_of(history, connection) == handler_state_after(own_events(history, connection)),
    decreases history.len(),
{
    if history.len() > 0 {
        lemma_handlers_share_nothing(history.drop_last(), connection);
        if history.last().connection == connection {
            let earlier = own_events(history.drop_last(), connection);
            assert(earlier.push(history.last().event).drop_last() =~= earlier);
        }
    }
}

/// Every answer is the answer to the connection's own reports: what the
/// server is asked to do for a report is what a handler that had seen only
/// that connection's earlier reports asks for.
pub proof fn lemma_answer_depends_on_own_reports(history: Seq<Delivery>, i: int)
    requires
        0 <= i < history.len(),
    ensures
        answer_at(history, i) == handler_step(
            handler_state_after(own_events(history.take(i), history[i].connection)),
            history[i].event,
        ).1,
{
    lemma_handlers_share_nothing(history.take(i), history[i].connection);
}

/// The order in which the reports of different connections fall does not
/// matter: two histories that hold the same reports for a connection leave
/// its handler in the same stage, and the next report to it gets the same
/// answer in both.
pub proof fn lemma_interleaving_does_not_matter(
    first: Seq<Delivery>,
    second: Seq<Delivery>,
    next: Delivery,
)
    requires
        own_events(first, next.connection) == own_events(second, next.connection),
    ensures
        stage_of(first, next.connection) == stage_of(second, next.connection),
        answer_at(first.push(next), first.len() as int) == answer_at(
            second.push(next),
            second.len() as int,
        ),
{
    lemma_handlers_share_nothing(first, next.connection);
    lemma_handlers_share_nothing(second, next.connection);
    assert(first.push(next).take(first.len() as int) =~= first);
    assert(second.push(next).take(second.len() as int) =~= second);
}

/// A report to one connection leaves the handlers of all others where they
/// are.
pub proof fn lemma_report_moves_one_handler(history: Seq<Delivery>, next: Delivery, other: nat)
    requires
        other != next.connection,
    ensures
        stage_of(history.push(next), other) == stage_of(history, other),
        own_events(history.push(next), other) == own_events(history, other),
{
    assert(history.push(next).drop_last() =~= history);
}

/// Each connection is answered for the command that ran for it: a reply is
/// asked for in answer to the outcome reported to that same connection, and
/// it is the reply that belongs to that outcome, whatever was reported to
/// other connections in between.
pub proof fn lemma_reply_is_for_own_outcome(history: Seq<Delivery>, i: int)
    requires
        0 <= i < history.len(),
        answer_at(history, i) is Reply,
    ensures
        history[i].event matches HandlerEventView::Ran(outcome) && answer_at(history, i)
            == reply_of(outcome),
{
}

/// Nothing is remembered from one connection to the next: the same payload
/// on two fresh connections has the same command executed twice, once for
/// each, and a completed run on each gets an acknowledgement of its own.
pub proof fn lemma_same_command_is_run_again(history: Seq<Delivery>, i: int, j: int)
    requires
        0 <= i < history.len(),
        0 <= j < history.len(),
        history[i].connection != history[j].connection,
        history[i].event is Received,
        history[i].event == history[j].event,
        own_events(history.take(i), history[i].connection).len() == 0,
        own_events(history.take(j), history[j].connection).len() == 0,
    ensures
        answer_at(history, i) is Execute,
        answer_at(history, j) == answer_at(history, i),
        history[i].event matches HandlerEventView::Received(payload) && answer_at(history, i)
            == execute_of(lossy_text(bounded(payload, PAYLOAD_CAPACITY as nat))),
{
    lemma_handlers_share_nothing(history.take(i), history[i].connection);
    lemma_handlers_share_nothing(history.take(j), history[j].connection);
    assert(own_events(history.take(i), history[i].connection) =~= Seq::empty());
    assert(own_events(history.take(j), history[j].connection) =~= Seq::empty());
}

/// A run that completed is acknowledged on the connection that it ran for,
/// every time: the reply to a completed run is the same on every connection
/// and after any history.
pub proof fn lemma_every_completed_run_is_acknowledged(history: Seq<Delivery>, i: int)
    requires
        0 <= i < history.len(),
        history[i].event == HandlerEventView::Ran(OutcomeView::Completed),
        stage_of(history.take(i), history[i].connection) == HandlerState::Executing,
    ensures
        answer_at(history, i) == reply_of(OutcomeView::Completed),
{
}

} // verus!
