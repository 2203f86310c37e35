//! Bytes on the wire: bounded reads and the text they stand for.

use vstd::prelude::*;
use vstd::utf8::{
    decode_utf8, encode_utf8, encode_utf8_decode_utf8, encode_utf8_valid_utf8, valid_utf8,
};

verus! {

/// Size of the buffer for the one read that the server makes on a connection.
pub const PAYLOAD_CAPACITY: usize = 1024;

/// Size of the buffer for the one read that the client makes of the answer.
pub const REPLY_CAPACITY: usize = 512;

/// What a read into a buffer of `limit` bytes keeps of `bytes`: all of them
/// if they fit, otherwise the first `limit` and nothing else.
pub open spec fn bounded(bytes: Seq<u8>, limit: nat) -> Seq<u8> {
    if bytes.len() <= limit {
        bytes
    } else {
        bytes.take(limit as int)
    }
}

/// Copies the part of `bytes` that fits into `limit` bytes.
pub fn keep_bounded(bytes: &[u8], limit: usize) -> (kept: Vec<u8>)
    ensures
        kept@ == bounded(bytes@, limit as nat),
{
    let n: usize = if bytes.len() <= limit { bytes.len() } else { limit };
    let mut kept: Vec<u8> = Vec::new();
    let mut i: usize = 0;
    while i < n
        invariant
            i <= n,
            n <= bytes@.len(),
            kept@ == bytes@.take(i as int),
        decreases n - i,
    {
        kept.push(bytes[i]);
        i = i + 1;
    }
    assert(bytes@.take(bytes@.len() as int) == bytes@);
    kept
}

/// A bounded read keeps a prefix of what arrived: as much as the buffer
/// holds, byte for byte, and all of it while it fits.
pub proof fn lemma_bounded_keeps_prefix(bytes: Seq<u8>, limit: nat)
    ensures
        bounded(bytes, limit).is_prefix_of(bytes),
        bounded(bytes, limit).len() == if bytes.len() <= limit {
            bytes.len()
        } else {
            limit
        },
        bytes.len() <= limit <==> bounded(bytes, limit) == bytes,
{
}

/// The cut falls exactly at the limit: of a buffer's worth of bytes followed
/// by any others, the first are kept whole and the others leave no trace.
pub proof fn lemma_bytes_beyond_limit_are_dropped(head: Seq<u8>, tail: Seq<u8>, limit: nat)
    requires
        head.len() == limit,
    ensures
        bounded(head + tail, limit) == head,
{
    assert((head + tail).take(limit as int) =~= head);
    assert(tail.len() == 0 ==> head + tail =~= head);
}

/// Reading in pieces cannot reorder or invent bytes: whatever part of the
/// sent bytes one read returns, what is kept of it is a prefix of what was
/// sent and fits the buffer.
pub proof fn lemma_kept_bytes_begin_what_was_sent(sent: Seq<u8>, read: Seq<u8>, limit: nat)
    requires
        read.is_prefix_of(sent),
    ensures
        bounded(read, limit).is_prefix_of(sent),
        bounded(read, limit).len() <= limit,
        read.len() >= limit ==> bounded(read, limit) == sent.take(limit as int),
{
    if read.len() >= limit {
        assert(read.take(limit as int) =~= sent.take(limit as int));
    }
}

/// What lossy UTF-8 decoding makes of bytes that are no well-formed UTF-8:
/// the characters that the well-formed stretches encode, with U+FFFD in
/// place of every stretch that encodes none.
pub uninterp spec fn lossy_replaced(bytes: Seq<u8>) -> Seq<char>;

/// The text that lossy UTF-8 decoding makes of `bytes`: well-formed UTF-8
/// stands for the characters that it encodes, and anything else for what
/// [`lossy_replaced`] names. Every byte sequence has a text.
pub open spec fn lossy_text(bytes: Seq<u8>) -> Seq<char> {
    if valid_utf8(bytes) {
        decode_utf8(bytes)
    } else {
        lossy_replaced(bytes)
    }
}

/// Decodes with `String::from_utf8_lossy`. Of well-formed UTF-8 the contract
/// claims what the standard library documents, that it is decoded as it
/// stands, without any replacement. Of other bytes it claims only that the
/// result is a function of the bytes alone, named by [`lossy_replaced`].
#[verifier::external_body]
fn decode_lossy(bytes: &[u8]) -> (text: String)
    ensures
        text@ == (if valid_utf8(bytes@) {
            decode_utf8(bytes@)
        } else {
            lossy_replaced(bytes@)
        }),
{
    String::from_utf8_lossy(bytes).into_owned()
}

/// The text of the command that the server takes from what one read of a
/// connection returned: the bytes that fit the payload buffer, decoded
/// leniently. Bytes beyond the buffer are dropped without complaint, and no
/// byte sequence is rejected.
pub fn command_text(received: &[u8]) -> (text: String)
    ensures
        text@ == lossy_text(bounded(received@, PAYLOAD_CAPACITY as nat)),
{
    let kept = keep_bounded(received, PAYLOAD_CAPACITY);
    decode_lossy(kept.as_slice())
}

/// The text that the client shows of what its one read of the answer
/// returned: the bytes that fit the reply buffer, decoded leniently.
pub fn reply_text(received: &[u8]) -> (text: String)
    ensures
        text@ == lossy_text(bounded(received@, REPLY_CAPACITY as nat)),
{
    let kept = keep_bounded(received, REPLY_CAPACITY);
    decode_lossy(kept.as_slice())
}

/// Text that was encoded as UTF-8 is read back as it was, as long as it
/// fits the buffer: nothing is replaced and nothing is lost.
pub proof fn lemma_encoded_text_is_read_back(text: Seq<char>, limit: nat)
    requires
        encode_utf8(text).len() <= limit,
    ensures
        lossy_text(bounded(encode_utf8(text), limit)) == text,
{
    encode_utf8_valid_utf8(text);
    encode_utf8_decode_utf8(text);
}

} // verus!
