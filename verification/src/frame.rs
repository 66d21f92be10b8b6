//! The length-prefixed wire framing.
//!
//! One frame is a 4-byte little-endian length `L` followed by exactly `L`
//! payload bytes.  A reader must have the full payload in hand before it
//! decodes; a short read is never a frame.

use vstd::prelude::*;
use vstd::bytes::{spec_u32_from_le_bytes, spec_u32_to_le_bytes};

use crate::{ReceiverError, SenderError, WireValue};

verus! {

/// The number of bytes in a frame header.
pub const HEADER_LEN: usize = 4;

/// The frame that carries `payload`: the payload's length as a 4-byte
/// little-endian `u32`, then the payload itself.
pub open spec fn spec_frame(payload: Seq<u8>) -> Seq<u8> {
    spec_u32_to_le_bytes(payload.len() as u32) + payload
}

/// A payload fits in a frame when its length fits the 4-byte header.
pub open spec fn frame_sized(payload: Seq<u8>) -> bool {
    payload.len() <= u32::MAX
}

/// A frame determines its payload: the header gives the length back and the
/// rest of the frame is the payload, so distinct payloads give distinct
/// frames.
pub proof fn lemma_frame_parts(payload: Seq<u8>)
    requires
        frame_sized(payload),
    ensures
        spec_frame(payload).len() == payload.len() + 4,
        spec_u32_from_le_bytes(spec_frame(payload).take(4)) == payload.len(),
        spec_frame(payload).skip(4) == payload,
{
    vstd::bytes::lemma_auto_spec_u32_to_from_le_bytes();
    assert(spec_frame(payload).take(4) =~= spec_u32_to_le_bytes(payload.len() as u32));
    assert(spec_frame(payload).skip(4) =~= payload);
}

/// Round trip over the wire: the frame written for a value announces the
/// encoding's exact length in its header, and a peer that reads that many
/// payload bytes and decodes them gets the value back.  This holds for every
/// value of every type that implements [`WireValue`].
pub proof fn lemma_frame_round_trip<T: WireValue>(v: T::V)
    requires
        frame_sized(T::wire_enc(v)),
    ensures
        spec_u32_from_le_bytes(spec_frame(T::wire_enc(v)).take(4)) == T::wire_enc(v).len(),
        T::wire_dec(spec_frame(T::wire_enc(v)).skip(4)) == Some(v),
{
    lemma_frame_parts(T::wire_enc(v));
    T::wire_round_trip(v);
}

/// The payload length announced by a frame header.
pub fn frame_len(header: &[u8]) -> (n: u32)
    requires
        header@.len() == 4,
    ensures
        n == spec_u32_from_le_bytes(header@),
{
    vstd::bytes::u32_from_le_bytes(header)
}

/// Encode `t` and wrap the encoding in a frame, ready to be written to the
/// transport in one piece.
///
/// Fails with [`SenderError::Encoding`] exactly when the encoding is too long
/// for the 4-byte length header.
pub fn write_item<T: WireValue>(t: &T) -> (r: Result<Vec<u8>, SenderError>)
    ensures
        match r {
            Ok(f) => frame_sized(T::wire_enc(t@)) && f@ == spec_frame(T::wire_enc(t@)),
            Err(e) => e is Encoding && !frame_sized(T::wire_enc(t@)),
        },
{
    let payload = t.encode();
    if payload.len() > u32::MAX as usize {
        return Err(SenderError::Encoding);
    }
    let len32: u32 = payload.len() as u32;
    let mut f = vstd::bytes::u32_to_le_bytes(len32);
    let mut payload = payload;
    f.append(&mut payload);
    assert(f@ =~= spec_frame(T::wire_enc(t@)));
    Ok(f)
}

/// Decode a frame's payload into a value of the expected type.
///
/// Fails with [`ReceiverError::Decoding`] exactly when the bytes are not an
/// encoding of the type.
pub fn read_item<S: WireValue>(payload: &[u8]) -> (r: Result<S, ReceiverError>)
    ensures
        match r {
            Ok(s) => S::wire_dec(payload@) == Some(s@),
            Err(e) => e is Decoding && S::wire_dec(payload@) is None,
        },
{
    match S::decode(payload) {
        Some(s) => Ok(s),
        None => Err(ReceiverError::Decoding),
    }
}

} // verus!
