use vstd::prelude::*;
use vstd::utf8::{decode_utf8, encode_utf8, encode_utf8_decode_utf8, encode_utf8_valid_utf8, valid_utf8};
use crate::envelope::request_for;
use crate::error::BridgeError;

verus! {

/// What came of one send-then-receive exchange on the socket.
#[derive(Debug, PartialEq, Eq)]
pub enum Exchange {
    /// The request was sent and this reply frame came back.
    Replied(Vec<u8>),
    /// The request could not be sent; the transport's description.
    SendFailed(String),
    /// The request was sent but no reply could be received.
    ReceiveFailed(String),
}

/// The text of a reply frame: its characters where the bytes are valid
/// UTF-8, else `None`.
pub open spec fn reply_text(bytes: Seq<u8>) -> Option<Seq<char>> {
    if valid_utf8(bytes) {
        Some(decode_utf8(bytes))
    } else {
        None
    }
}

/// Relies on `std::str::from_utf8`, which accepts exactly the byte slices
/// that are valid UTF-8 and then reads their characters.
#[verifier::external_body]
fn decode_text(bytes: &[u8]) -> (r: Option<String>)
    ensures
        r matches Some(t) ==> reply_text(bytes@) == Some(t@),
        r is None ==> reply_text(bytes@) is None,
{
    std::str::from_utf8(bytes).ok().map(|t| t.to_owned())
}

/// The result that a call hands back for the outcome of its exchange: the
/// reply's text, or the error of the phase that failed.
pub fn finish_call(outcome: Exchange) -> (r: Result<String, BridgeError>)
    ensures
        match outcome {
            Exchange::Replied(b) => match reply_text(b@) {
                Some(t) => r matches Ok(s) && s@ == t,
                None => r == Err::<String, BridgeError>(BridgeError::Decode),
            },
            Exchange::SendFailed(d) => r == Err::<String, BridgeError>(BridgeError::Send(d)),
            Exchange::ReceiveFailed(d) => r == Err::<String, BridgeError>(BridgeError::Receive(d)),
        },
{
    match outcome {
        Exchange::Replied(b) => match decode_text(b.as_slice()) {
            Some(t) => Ok(t),
            None => Err(BridgeError::Decode),
        },
        Exchange::SendFailed(d) => Err(BridgeError::Send(d)),
        Exchange::ReceiveFailed(d) => Err(BridgeError::Receive(d)),
    }
}

/// A frame that the peer sends back unchanged reads as the very text that
/// was sent: the reply to an echoed request is the request itself.
pub proof fn echoed_frame_reads_back(method: Seq<char>, params: Seq<char>)
    ensures
        reply_text(encode_utf8(request_for(method, params))) == Some(request_for(method, params)),
{
    let t = request_for(method, params);
    encode_utf8_valid_utf8(t);
    encode_utf8_decode_utf8(t);
}

} // verus!
