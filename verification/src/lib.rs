//! Channels that carry strongly typed values over a byte-stream transport.
//!
//! The crate mirrors the shape of in-process channels: a [`Sender`] hands a
//! value to a background worker and gets a [`queue::PendingResult`] back, a
//! [`Receiver`] yields the values (or errors) that the inbound worker has
//! published.  On the wire every value travels as one frame: a 4-byte
//! little-endian length followed by exactly that many payload bytes, the
//! payload being the value's encoding (see [`WireValue`]).
//!
//! The modules split the engine into its layers:
//! - [`frame`]: the length-prefixed wire framing;
//! - [`msg`]: the example message and response types with their encodings;
//! - [`registry`]: the server-side client registry (id assignment and reuse);
//! - [`queue`]: the in-process queues that connect callers to the workers;
//! - [`tcp`]: the channel facade and the per-connection worker protocol.

use vstd::prelude::*;

pub mod frame;
pub mod msg;
pub mod queue;
pub mod registry;
pub mod tcp;

verus! {

/// Errors that the sending side of a channel can observe.
///
/// Each pending send is fulfilled with exactly one outcome; these are the
/// failure kinds.
#[derive(Clone, Copy, Debug, PartialEq, Eq, Structural)]
pub enum SenderError {
    /// The queue between the caller and the outbound worker is closed:
    /// the worker (and with it the connection) is gone.
    Closed,
    /// The transport failed while the frame was being written; the frame may
    /// have been sent only partially and the connection must be considered
    /// broken.
    Io,
    /// The value could not be encoded; the connection is unaffected.
    Encoding,
}

impl SenderError {
    /// A short description of the error kind.
    pub fn description(&self) -> (r: &'static str)
        ensures
            *self is Closed ==> r@ == "channel closed"@,
            *self is Io ==> r@ == "io error"@,
            *self is Encoding ==> r@ == "encoding error"@,
    {
        match *self {
            SenderError::Closed => "channel closed",
            SenderError::Io => "io error",
            SenderError::Encoding => "encoding error",
        }
    }
}

/// Errors that the receiving side of a channel can observe.
#[derive(Clone, Copy, Debug, PartialEq, Eq, Structural)]
pub enum ReceiverError {
    /// The transport failed while a frame was being read.
    Io,
    /// A complete frame arrived but its payload is not an encoding of the
    /// expected type.
    Decoding,
    /// The inbound worker has terminated and no further value will arrive.
    Disconnected,
}

impl ReceiverError {
    /// A short description of the error kind.
    pub fn description(&self) -> (r: &'static str)
        ensures
            *self is Io ==> r@ == "io error"@,
            *self is Decoding ==> r@ == "decoding error"@,
            *self is Disconnected ==> r@ == "disconnected"@,
    {
        match *self {
            ReceiverError::Io => "io error",
            ReceiverError::Decoding => "decoding error",
            ReceiverError::Disconnected => "disconnected",
        }
    }
}

/// A value that can travel over a channel: it knows its byte encoding and
/// how to read itself back out of one.
///
/// The two spec functions fix the encoding mathematically; the two proof
/// obligations make every implementation a lawful codec: decoding accepts an
/// encoding and nothing but an encoding, so a decoded value pins the bytes
/// down exactly.
pub trait WireValue: View + Sized {
    /// The byte encoding of a value with this mathematical shape.
    spec fn wire_enc(v: Self::V) -> Seq<u8>;

    /// The value that a byte sequence decodes to, if any.
    spec fn wire_dec(b: Seq<u8>) -> Option<Self::V>;

    /// Round trip: every value decodes back from its own encoding.
    proof fn wire_round_trip(v: Self::V)
        ensures
            Self::wire_dec(Self::wire_enc(v)) == Some(v),
    ;

    /// Soundness: decoding accepts exact encodings only.
    proof fn wire_dec_exact(b: Seq<u8>)
        ensures
            Self::wire_dec(b) matches Some(v) ==> b == Self::wire_enc(v),
    ;

    /// Encode the value.
    fn encode(&self) -> (r: Vec<u8>)
        ensures
            r@ == Self::wire_enc(self@),
    ;

    /// Decode a value from bytes; `None` when the bytes are not an encoding.
    fn decode(b: &[u8]) -> (r: Option<Self>)
        ensures
            match r {
                Some(m) => Self::wire_dec(b@) == Some(m@),
                None => Self::wire_dec(b@) is None,
            },
    ;
}

/// The caller-facing sending end of a channel.
pub trait Sender<T: WireValue> {
    /// Queue a value to be sent and return at once; the returned
    /// [`queue::PendingResult`] resolves once the outbound worker has
    /// written the frame or failed to.  The caller is never blocked on
    /// network I/O.
    fn send(&mut self, t: T) -> queue::PendingResult;
}

/// The caller-facing receiving end of a channel.
pub trait Receiver<S: WireValue> {
    /// Block until the inbound worker has published the next outcome, and
    /// return it: a decoded value, or the error the worker observed.
    fn try_recv(&mut self) -> Result<S, ReceiverError>;
}

} // verus!
