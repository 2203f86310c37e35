//! The listener: bind once, then accept without end and give each
//! connection a handler of its own.

use crate::handler::HandlerState;
use vstd::prelude::*;

verus! {

/// The address that the server listens on and the client connects to.
pub open spec fn endpoint_text() -> Seq<char> {
    "127.0.0.1:7878"@
}

/// The address that the server listens on and the client connects to.
pub fn endpoint() -> (address: &'static str)
    ensures
        address@ == endpoint_text(),
{
    "127.0.0.1:7878"
}

/// What the server prints once it listens.
pub open spec fn startup_notice() -> Seq<char> {
    "Server listening on port 7878"@
}

/// The words that introduce the reason of a failed accept on the console.
pub open spec fn accept_failure_prefix() -> Seq<char> {
    "Connection failed: "@
}

/// The stages of the listener.
#[derive(Clone, Copy, Debug, PartialEq, Eq, Structural)]
pub enum ListenerState {
    Binding,
    Listening,
    Stopped,
}

/// What the program around the library reports to the listener.
#[derive(Debug, PartialEq, Eq)]
pub enum ListenerEvent {
    /// The listening socket is bound.
    Bound,
    /// The listening socket could not be bound.
    BindFailed(String),
    /// A connection was accepted.
    Accepted,
    /// An attempt to accept a connection failed.
    AcceptFailed(String),
}

/// The mathematical content of a [`ListenerEvent`].
pub enum ListenerEventView {
    Bound,
    BindFailed(Seq<char>),
    Accepted,
    AcceptFailed(Seq<char>),
}

impl View for ListenerEvent {
    type V = ListenerEventView;

    open spec fn view(&self) -> ListenerEventView {
        match self {
            ListenerEvent::Bound => ListenerEventView::Bound,
            ListenerEvent::BindFailed(reason) => ListenerEventView::BindFailed(reason@),
            ListenerEvent::Accepted => ListenerEventView::Accepted,
            ListenerEvent::AcceptFailed(reason) => ListenerEventView::AcceptFailed(reason@),
        }
    }
}

/// What the listener asks the program around the library to do next.
#[derive(Debug, PartialEq, Eq)]
pub enum ListenerAction {
    /// Print `notice` on standard output and start to accept connections.
    Announce { notice: String },
    /// Give the connection to a handler that starts in `handler`, in an
    /// execution context of its own, and accept the next connection.
    Dispatch { handler: HandlerState },
    /// Print `notice` on standard output and accept the next connection.
    Report { notice: String },
    /// End the process with `reason` as its error.
    Abort { reason: String },
    /// The event does not belong to this stage: do nothing.
    Ignore,
}

/// The mathematical content of a [`ListenerAction`].
pub enum ListenerActionView {
    Announce { notice: Seq<char> },
    Dispatch { handler: HandlerState },
    Report { notice: Seq<char> },
    Abort { reason: Seq<char> },
    Ignore,
}

impl View for ListenerAction {
    type V = ListenerActionView;

    open spec fn view(&self) -> ListenerActionView {
        match self {
            ListenerAction::Announce { notice } => ListenerActionView::Announce { notice: notice@ },
            ListenerAction::Dispatch { handler } => ListenerActionView::Dispatch {
                handler: *handler,
            },
            ListenerAction::Report { notice } => ListenerActionView::Report { notice: notice@ },
            ListenerAction::Abort { reason } => ListenerActionView::Abort { reason: reason@ },
            ListenerAction::Ignore => ListenerActionView::Ignore,
        }
    }
}

/// The transitions of the listener. Each stage answers the events that can
/// reach it; any other event leaves the stage as it is and asks for nothing.
///
/// - `Binding`: a bound socket is announced and listened on; a socket that
///   cannot be bound ends the process.
/// - `Listening`: every accepted connection gets a fresh handler, with no
///   limit on their number; a failed accept is reported and nothing more.
///   Either way the listener goes on listening.
/// - `Stopped`: nothing follows.
pub open spec fn listener_step(state: ListenerState, event: ListenerEventView) -> (
    ListenerState,
    ListenerActionView,
) {
    match (state, event) {
        (ListenerState::Binding, ListenerEventView::Bound) => (
            ListenerState::Listening,
            ListenerActionView::Announce { notice: startup_notice() },
        ),
        (ListenerState::Binding, ListenerEventView::BindFailed(reason)) => (
            ListenerState::Stopped,
            ListenerActionView::Abort { reason },
        ),
        (ListenerState::Listening, ListenerEventView::Accepted) => (
            ListenerState::Listening,
            ListenerActionView::Dispatch { handler: HandlerState::Reading },
        ),
        (ListenerState::Listening, ListenerEventView::AcceptFailed(reason)) => (
            ListenerState::Listening,
            ListenerActionView::Report { notice: accept_failure_prefix() + reason },
        ),
        _ => (state, ListenerActionView::Ignore),
    }
}

impl ListenerState {
    /// Takes one event and says which stage follows and what is to be done.
    pub fn step(self, event: ListenerEvent) -> (next: (ListenerState, ListenerAction))
        ensures
            next.0 == listener_step(self, event@).0,
            next.1@ == listener_step(self, event@).1,
    {
        match (self, event) {
            (ListenerState::Binding, ListenerEvent::Bound) => (
                ListenerState::Listening,
                ListenerAction::Announce {
                    notice: String::from_str("Server listening on port 7878"),
                },
            ),
            (ListenerState::Binding, ListenerEvent::BindFailed(reason)) => (
                ListenerState::Stopped,
                ListenerAction::Abort { reason },
            ),
            (ListenerState::Listening, ListenerEvent::Accepted) => (
                ListenerState::Listening,
                ListenerAction::Dispatch { handler: HandlerState::Reading },
            ),
            (ListenerState::Listening, ListenerEvent::AcceptFailed(reason)) => {
                let mut notice = String::from_str("Connection failed: ");
                notice.append(reason.as_str());
                (ListenerState::Listening, ListenerAction::Report { notice })
            },
            (state, _) => (state, ListenerAction::Ignore),
        }
    }
}

/// The stage of a listener that was started and has since been told
/// `events`.
pub open spec fn listener_state_after(events: Seq<ListenerEventView>) -> ListenerState
    decreases events.len(),
{
    if events.len() == 0 {
        ListenerState::Binding
    } else {
        listener_step(listener_state_after(events.drop_last()), events.last()).0
    }
}

/// What such a listener asks for in answer to the event at position `i`.
pub open spec fn listener_action_at(events: Seq<ListenerEventView>, i: int) -> ListenerActionView
    recommends
        0 <= i < events.len(),
{
    listener_step(listener_state_after(events.take(i)), events[i]).1
}

/// A failed accept is never fatal, and neither is any number of accepted
/// connections: a listener that listens goes on listening whatever it is
/// told.
pub proof fn lemma_listener_keeps_listening(events: Seq<ListenerEventView>, i: int, j: int)
    requires
        0 <= i <= j <= events.len(),
        listener_state_after(events.take(i)) == ListenerState::Listening,
    ensures
        listener_state_after(events.take(j)) == ListenerState::Listening,
    decreases j - i,
{
    if i < j {
        lemma_listener_keeps_listening(events, i, j - 1);
        assert(events.take(j).drop_last() =~= events.take(j - 1));
    }
}

/// Only a failure to bind stops the listener: it asks for the process to end
/// in answer to that report and to no other, and in no stage but the first.
pub proof fn lemma_only_bind_failure_is_fatal(events: Seq<ListenerEventView>, i: int)
    requires
        0 <= i < events.len(),
        listener_action_at(events, i) is Abort,
    ensures
        events[i] matches ListenerEventView::BindFailed(reason) && listener_action_at(events, i)
            == (ListenerActionView::Abort { reason }),
        listener_state_after(events.take(i)) == ListenerState::Binding,
        forall|k: int| 0 <= k < i ==> !(#[trigger] events[k] is Bound),
{
    assert forall|k: int| 0 <= k < i implies !(#[trigger] events[k] is Bound) by {
        if events[k] is Bound {
            lemma_binding_precedes_bound(events, k, i);
        }
    }
}

/// A listener that is still binding at position `i` was told of no bound
/// socket before.
proof fn lemma_binding_precedes_bound(events: Seq<ListenerEventView>, k: int, i: int)
    requires
        0 <= k < i <= events.len(),
        events[k] is Bound,
    ensures
        listener_state_after(events.take(i)) != ListenerState::Binding,
    decreases i - k,
{
    assert(events.take(i).drop_last() =~= events.take(i - 1));
    if k + 1 < i {
        lemma_binding_precedes_bound(events, k, i - 1);
    } else {
        assert(events.take(i).last() == events[k]);
    }
}

/// Every accepted connection is served, and served afresh: a listener that
/// listens answers each accepted connection with a new handler in its first
/// stage, however many it has dispatched before and whatever became of them.
pub proof fn lemma_every_connection_gets_a_handler(events: Seq<ListenerEventView>, i: int, j: int)
    requires
        0 <= i <= j < events.len(),
        listener_state_after(events.take(i)) == ListenerState::Listening,
        events[j] is Accepted,
    ensures
        listener_action_at(events, j) == (ListenerActionView::Dispatch {
            handler: HandlerState::Reading,
        }),
{
    lemma_listener_keeps_listening(events, i, j);
}

} // verus!
