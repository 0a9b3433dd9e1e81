//! The decisions of a connection's read pump and of its `receive`.
//!
//! The pump reads from the socket into a buffer and hands each outcome to
//! `handle_read`, which says what, if anything, goes onto the delivery
//! channel. Turning the delivered text into a typed value is the caller's.

use vstd::prelude::*;
use crate::codec::{deserialize, frame_outcome};

verus! {

/// What can go wrong on an established connection.
#[derive(Debug, Clone, PartialEq, Eq)]
pub enum ConnectionError {
    /// Reading or writing the socket failed; the system's words.
    IoFailure(String),
    /// The bytes did not decode to a message; the decoder's words.
    DecodeFailure(String),
    /// The message could not be encoded; the encoder's words.
    EncodingError(String),
    /// The read pump is gone and nothing more will arrive.
    Closed,
}

pub open spec fn read_failure_text(detail: Seq<char>) -> Seq<char> {
    "Failed to receive from client: "@ + detail
}

pub open spec fn decode_failure_text(detail: Seq<char>) -> Seq<char> {
    "Failed to deserialize from client: "@ + detail
}

impl ConnectionError {
    pub open spec fn spec_message(&self) -> Seq<char> {
        match self {
            ConnectionError::IoFailure(m) => m@,
            ConnectionError::DecodeFailure(m) => decode_failure_text(m@),
            ConnectionError::EncodingError(m) => m@,
            ConnectionError::Closed => "Receiving from dropped connection"@,
        }
    }

    /// The error's text.
    pub fn message(&self) -> (r: String)
        ensures
            r@ == self.spec_message(),
    {
        match self {
            ConnectionError::IoFailure(m) => m.clone(),
            ConnectionError::DecodeFailure(m) => {
                let mut r = String::from_str("Failed to deserialize from client: ");
                r.append(m.as_str());
                r
            },
            ConnectionError::EncodingError(m) => m.clone(),
            ConnectionError::Closed => String::from_str("Receiving from dropped connection"),
        }
    }
}

/// What the pump delivers for the bytes `received` of one read.
pub open spec fn delivery_of(received: Seq<u8>, item: Result<String, ConnectionError>) -> bool {
    match frame_outcome(received) {
        Ok(t) => item matches Ok(s) && s@ == t,
        Err(m) => item matches Err(ConnectionError::DecodeFailure(d)) && d@ == m,
    }
}

/// One step of the read pump: `read` is how the read into `buf` ended.
///
/// A failed read delivers an `IoFailure`; an empty read delivers nothing and
/// the pump reads again; a read of `n` bytes delivers the text that the first
/// `n` bytes of `buf` carry, or a `DecodeFailure` with the codec's message.
pub fn handle_read(read: Result<usize, String>, buf: &[u8]) -> (r: Option<
    Result<String, ConnectionError>,
>)
    requires
        read matches Ok(n) ==> n <= buf@.len(),
    ensures
        read matches Err(m) ==> (r matches Some(Err(ConnectionError::IoFailure(t))) && t@
            == read_failure_text(m@)),
        read matches Ok(n) ==> (if n == 0 {
            r is None
        } else {
            r matches Some(item) && delivery_of(buf@.subrange(0, n as int), item)
        }),
{
    match read {
        Err(m) => {
            let mut t = String::from_str("Failed to receive from client: ");
            t.append(m.as_str());
            Some(Err(ConnectionError::IoFailure(t)))
        },
        Ok(n) => {
            if n == 0 {
                None
            } else {
                let received = &buf[0..n];
                assert(received@ == buf@.subrange(0, n as int));
                match deserialize(received) {
                    Ok(s) => Some(Ok(s)),
                    Err(e) => Some(Err(ConnectionError::DecodeFailure(e.message()))),
                }
            }
        },
    }
}

/// What `receive` returns for what it took from the delivery channel: the
/// item itself, or `Closed` once the channel is exhausted.
pub fn take_delivery<T>(item: Option<Result<T, ConnectionError>>) -> (r: Result<T, ConnectionError>)
    ensures
        item matches Some(x) ==> r == x,
        item is None ==> r == Result::<T, ConnectionError>::Err(ConnectionError::Closed),
{
    match item {
        Some(x) => x,
        None => Err(ConnectionError::Closed),
    }
}

} // verus!
