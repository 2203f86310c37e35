//! The client: one message out, one bounded read of the answer, and what to
//! tell the user about it.

use crate::wire::{
    bounded, lemma_bytes_beyond_limit_are_dropped, lossy_text, reply_text, REPLY_CAPACITY,
};
use vstd::prelude::*;
use vstd::utf8::encode_utf8;

verus! {

/// What the client prints once it is connected.
pub open spec fn connected_notice() -> Seq<char> {
    "Successfully connected to server in port 7878"@
}

/// The words that introduce the reason of a failed connect.
pub open spec fn connect_failure_prefix() -> Seq<char> {
    "Failed to connect: "@
}

/// The words that introduce the message that was sent.
pub open spec fn sent_prefix() -> Seq<char> {
    "Sent message: "@
}

/// The words that introduce the answer that was received.
pub open spec fn received_prefix() -> Seq<char> {
    "Received: "@
}

/// The form in which `{:?}` shows `text`: between double quotes, with the
/// characters that would not show as themselves written as escapes.
pub uninterp spec fn debug_quoted(text: Seq<char>) -> Seq<char>;

/// Formats `text` with `{:?}`, that is with the implementation of
/// `std::fmt::Debug` for `str`. The result is a function of the text alone,
/// named by [`debug_quoted`]; nothing more is claimed of it.
#[verifier::external_body]
fn quote_debug(text: &str) -> (quoted: String)
    ensures
        quoted@ == debug_quoted(text@),
{
    format!("{:?}", text)
}

/// How an attempt to connect to the server ended.
#[derive(Debug, PartialEq, Eq)]
pub enum ConnectOutcome {
    Connected,
    Failed(String),
}

/// The mathematical content of a [`ConnectOutcome`].
pub enum ConnectOutcomeView {
    Connected,
    Failed(Seq<char>),
}

impl View for ConnectOutcome {
    type V = ConnectOutcomeView;

    open spec fn view(&self) -> ConnectOutcomeView {
        match self {
            ConnectOutcome::Connected => ConnectOutcomeView::Connected,
            ConnectOutcome::Failed(reason) => ConnectOutcomeView::Failed(reason@),
        }
    }
}

/// What the client does once it knows whether it is connected. Both ways
/// end without an error for the process.
#[derive(Debug, PartialEq, Eq)]
pub enum ClientAction {
    /// Print `notice`; write `bytes` to the connection; print `sent_notice`;
    /// read once into a buffer of `capacity` bytes.
    Exchange { notice: String, bytes: Vec<u8>, sent_notice: String, capacity: usize },
    /// Print `notice` and end.
    GiveUp { notice: String },
}

/// The mathematical content of a [`ClientAction`].
pub enum ClientActionView {
    Exchange { notice: Seq<char>, bytes: Seq<u8>, sent_notice: Seq<char>, capacity: usize },
    GiveUp { notice: Seq<char> },
}

impl View for ClientAction {
    type V = ClientActionView;

    open spec fn view(&self) -> ClientActionView {
        match self {
            ClientAction::Exchange { notice, bytes, sent_notice, capacity } => {
                ClientActionView::Exchange {
                    notice: notice@,
                    bytes: bytes@,
                    sent_notice: sent_notice@,
                    capacity: *capacity,
                }
            },
            ClientAction::GiveUp { notice } => ClientActionView::GiveUp { notice: notice@ },
        }
    }
}

/// The exchange with the server for `message`, whose quoted form is
/// `quoted`: the message goes out as its UTF-8 bytes, unframed, and the
/// answer is read into the reply buffer.
pub open spec fn exchange_of(message: Seq<char>, quoted: Seq<char>) -> ClientActionView {
    ClientActionView::Exchange {
        notice: connected_notice(),
        bytes: encode_utf8(message),
        sent_notice: sent_prefix() + quoted,
        capacity: REPLY_CAPACITY,
    }
}

/// What the client does for each outcome of the connect: an exchange if it
/// is connected, otherwise a notice with the reason and nothing else.
pub open spec fn client_action_of(message: Seq<char>, outcome: ConnectOutcomeView)
    -> ClientActionView {
    match outcome {
        ConnectOutcomeView::Connected => exchange_of(message, debug_quoted(message)),
        ConnectOutcomeView::Failed(reason) => ClientActionView::GiveUp {
            notice: connect_failure_prefix() + reason,
        },
    }
}

/// Plans the exchange for `message`, given its quoted form.
pub fn exchange(message: &str, quoted: &str) -> (action: ClientAction)
    ensures
        action@ == exchange_of(message@, quoted@),
{
    let mut sent_notice = String::from_str("Sent message: ");
    sent_notice.append(quoted);
    ClientAction::Exchange {
        notice: String::from_str("Successfully connected to server in port 7878"),
        bytes: message.as_bytes_vec(),
        sent_notice,
        capacity: REPLY_CAPACITY,
    }
}

/// Decides what the client does after its attempt to connect.
pub fn on_connect(message: &str, outcome: ConnectOutcome) -> (action: ClientAction)
    ensures
        action@ == client_action_of(message@, outcome@),
{
    match outcome {
        ConnectOutcome::Connected => {
            let quoted = quote_debug(message);
            exchange(message, quoted.as_str())
        },
        ConnectOutcome::Failed(reason) => {
            let mut notice = String::from_str("Failed to connect: ");
            notice.append(reason.as_str());
            ClientAction::GiveUp { notice }
        },
    }
}

/// What the client shows for the bytes that its one read returned: behind
/// the prefix, the text of as many of them as the reply buffer holds.
pub open spec fn shown_for(received: Seq<u8>) -> Seq<char> {
    received_prefix() + lossy_text(bounded(received, REPLY_CAPACITY as nat))
}

/// What the client prints for an answer whose text is `text`.
pub fn received_notice(text: &str) -> (notice: String)
    ensures
        notice@ == received_prefix() + text@,
{
    let mut notice = String::from_str("Received: ");
    notice.append(text);
    notice
}

/// What the client prints for what its one read returned: the bytes that fit
/// the reply buffer, decoded leniently, behind the prefix. Bytes beyond the
/// buffer are not shown.
pub fn on_reply(received: &[u8]) -> (notice: String)
    ensures
        notice@ == shown_for(received@),
{
    let text = reply_text(received);
    received_notice(text.as_str())
}

/// The cut of a long answer falls exactly behind the last byte that the
/// reply buffer holds: of an answer that fills the buffer and goes on, the
/// client sees what it would see had the answer ended there.
pub proof fn lemma_long_reply_is_cut(head: Seq<u8>, tail: Seq<u8>)
    requires
        head.len() == REPLY_CAPACITY,
    ensures
        bounded(head + tail, REPLY_CAPACITY as nat) == head,
        shown_for(head + tail) == shown_for(head),
        shown_for(head + tail) == received_prefix() + lossy_text(head),
{
    lemma_bytes_beyond_limit_are_dropped(head, tail, REPLY_CAPACITY as nat);
    lemma_bytes_beyond_limit_are_dropped(head, Seq::<u8>::empty(), REPLY_CAPACITY as nat);
    assert(head + Seq::<u8>::empty() =~= head);
}

} // verus!
