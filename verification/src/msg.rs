//! The message and response types that travel over the example channels,
//! with their byte encodings.
//!
//! Every value is encoded as a 4-byte little-endian variant tag followed by
//! the variant's data: nothing for [`Message::Blank`], the integer's 4
//! two's-complement bytes for [`Message::Int`], the UTF-8 bytes of the text
//! for [`Message::String`].  Decoding accepts exactly the encodings and
//! nothing else, which makes the codec deterministic and self-delimiting
//! within a frame's payload.

use vstd::bytes::{
    lemma_auto_spec_u32_to_from_le_bytes, spec_u32_from_le_bytes, spec_u32_to_le_bytes,
    u32_from_le_bytes, u32_to_le_bytes,
};
use vstd::prelude::*;
use vstd::slice::{slice_subrange, slice_to_vec};
use vstd::utf8::{
    decode_utf8, decode_utf8_encode_utf8, encode_utf8, encode_utf8_decode_utf8,
    encode_utf8_valid_utf8, valid_utf8,
};

use crate::WireValue;

verus! {

/// A message a client sends to a server.
#[derive(Clone, Debug, PartialEq)]
pub enum Message {
    Blank,
    Int(i32),
    String(String),
}

/// The mathematical shape of a [`Message`]: the text is its character
/// sequence.
pub enum MessageView {
    Blank,
    Int(i32),
    String(Seq<char>),
}

impl View for Message {
    type V = MessageView;

    open spec fn view(&self) -> MessageView {
        match self {
            Message::Blank => MessageView::Blank,
            Message::Int(i) => MessageView::Int(*i),
            Message::String(s) => MessageView::String(s@),
        }
    }
}

/// A response a server returns for one message.
#[derive(Clone, Copy, Debug, PartialEq, Eq, Structural)]
pub enum Response {
    Okay,
    NotOkay,
}

impl View for Response {
    type V = Response;

    open spec fn view(&self) -> Response {
        *self
    }
}

/// The two's-complement bit pattern of an `i32`, as a `u32`.
pub open spec fn spec_bits_of_i32(i: i32) -> u32 {
    if i >= 0 {
        i as u32
    } else {
        ((i as int) + 0x1_0000_0000) as u32
    }
}

/// The `i32` whose two's-complement bit pattern is `u`.
pub open spec fn spec_i32_of_bits(u: u32) -> i32 {
    if u < 0x8000_0000 {
        u as i32
    } else {
        ((u as int) - 0x1_0000_0000) as i32
    }
}

/// The two conversions invert each other.
pub proof fn lemma_i32_bits_round_trip(i: i32, u: u32)
    ensures
        spec_i32_of_bits(spec_bits_of_i32(i)) == i,
        spec_bits_of_i32(spec_i32_of_bits(u)) == u,
{
}

fn bits_of_i32(i: i32) -> (u: u32)
    ensures
        u == spec_bits_of_i32(i),
{
    if i >= 0 {
        i as u32
    } else {
        ((i as i64) + 0x1_0000_0000i64) as u32
    }
}

fn i32_of_bits(u: u32) -> (i: i32)
    ensures
        i == spec_i32_of_bits(u),
{
    if u < 0x8000_0000 {
        u as i32
    } else {
        ((u as i64) - 0x1_0000_0000i64) as i32
    }
}

/// Relies on `String::from_utf8`: it succeeds exactly on valid UTF-8 input
/// and the returned string holds exactly the given bytes.
#[verifier::external_body]
fn string_from_utf8(bytes: Vec<u8>) -> (r: Option<String>)
    ensures
        r matches Some(s) ==> valid_utf8(bytes@) && s@ == decode_utf8(bytes@),
        r is None ==> !valid_utf8(bytes@),
{
    String::from_utf8(bytes).ok()
}

/// The encoding of a message: tag 0, 1 or 2, then the variant's bytes.
pub open spec fn spec_enc_message(v: MessageView) -> Seq<u8> {
    match v {
        MessageView::Blank => spec_u32_to_le_bytes(0u32),
        MessageView::Int(i) => spec_u32_to_le_bytes(1u32) + spec_u32_to_le_bytes(
            spec_bits_of_i32(i),
        ),
        MessageView::String(cs) => spec_u32_to_le_bytes(2u32) + encode_utf8(cs),
    }
}

/// The message a byte sequence decodes to: `Some` exactly on encodings.
pub open spec fn spec_dec_message(b: Seq<u8>) -> Option<MessageView> {
    if b.len() < 4 {
        None
    } else {
        let tag = spec_u32_from_le_bytes(b.take(4));
        let rest = b.skip(4);
        if tag == 0 {
            if rest.len() == 0 {
                Some(MessageView::Blank)
            } else {
                None
            }
        } else if tag == 1 {
            if rest.len() == 4 {
                Some(MessageView::Int(spec_i32_of_bits(spec_u32_from_le_bytes(rest))))
            } else {
                None
            }
        } else if tag == 2 {
            if valid_utf8(rest) {
                Some(MessageView::String(decode_utf8(rest)))
            } else {
                None
            }
        } else {
            None
        }
    }
}

/// Every message decodes back from its own encoding.
pub proof fn lemma_message_round_trip(v: MessageView)
    ensures
        spec_dec_message(spec_enc_message(v)) == Some(v),
{
    lemma_auto_spec_u32_to_from_le_bytes();
    let b = spec_enc_message(v);
    match v {
        MessageView::Blank => {
            assert(b.take(4) =~= spec_u32_to_le_bytes(0u32));
            assert(b.skip(4) =~= Seq::<u8>::empty());
        },
        MessageView::Int(i) => {
            assert(b.take(4) =~= spec_u32_to_le_bytes(1u32));
            assert(b.skip(4) =~= spec_u32_to_le_bytes(spec_bits_of_i32(i)));
            lemma_i32_bits_round_trip(i, 0);
        },
        MessageView::String(cs) => {
            assert(b.take(4) =~= spec_u32_to_le_bytes(2u32));
            assert(b.skip(4) =~= encode_utf8(cs));
            encode_utf8_valid_utf8(cs);
            encode_utf8_decode_utf8(cs);
        },
    }
}

/// Decoding accepts exact encodings only: a decoded message pins the bytes
/// down.
pub proof fn lemma_message_dec_exact(b: Seq<u8>)
    ensures
        spec_dec_message(b) matches Some(v) ==> b == spec_enc_message(v),
{
    lemma_auto_spec_u32_to_from_le_bytes();
    if spec_dec_message(b) is Some {
        let tag = spec_u32_from_le_bytes(b.take(4));
        let rest = b.skip(4);
        assert(b.take(4).len() == 4);
        assert(b.take(4) == spec_u32_to_le_bytes(tag));
        if tag == 1 {
            let u = spec_u32_from_le_bytes(rest);
            lemma_i32_bits_round_trip(0, u);
            assert(rest == spec_u32_to_le_bytes(u));
            assert(b =~= spec_u32_to_le_bytes(1u32) + spec_u32_to_le_bytes(
                spec_bits_of_i32(spec_i32_of_bits(u)),
            ));
        } else if tag == 2 {
            decode_utf8_encode_utf8(rest);
            assert(b =~= spec_u32_to_le_bytes(2u32) + encode_utf8(decode_utf8(rest)));
        } else {
            assert(b =~= spec_u32_to_le_bytes(0u32));
        }
    }
}

impl WireValue for Message {
    open spec fn wire_enc(v: MessageView) -> Seq<u8> {
        spec_enc_message(v)
    }

    open spec fn wire_dec(b: Seq<u8>) -> Option<MessageView> {
        spec_dec_message(b)
    }

    proof fn wire_round_trip(v: MessageView) {
        lemma_message_round_trip(v);
    }

    proof fn wire_dec_exact(b: Seq<u8>) {
        lemma_message_dec_exact(b);
    }

    fn encode(&self) -> (r: Vec<u8>) {
        match self {
            Message::Blank => u32_to_le_bytes(0),
            Message::Int(i) => {
                let mut v = u32_to_le_bytes(1);
                let mut tail = u32_to_le_bytes(bits_of_i32(*i));
                v.append(&mut tail);
                assert(v@ =~= spec_enc_message(self@));
                v
            },
            Message::String(s) => {
                let mut v = u32_to_le_bytes(2);
                let mut tail = s.as_str().as_bytes_vec();
                v.append(&mut tail);
                assert(v@ =~= spec_enc_message(self@));
                v
            },
        }
    }

    fn decode(b: &[u8]) -> (r: Option<Message>) {
        if b.len() < 4 {
            return None;
        }
        let header = slice_subrange(b, 0, 4);
        let tag = u32_from_le_bytes(header);
        let rest = slice_subrange(b, 4, b.len());
        proof {
            assert(header@ =~= b@.take(4));
            assert(rest@ =~= b@.skip(4));
        }
        if tag == 0 {
            if rest.len() == 0 {
                Some(Message::Blank)
            } else {
                None
            }
        } else if tag == 1 {
            if rest.len() == 4 {
                let u = u32_from_le_bytes(rest);
                Some(Message::Int(i32_of_bits(u)))
            } else {
                None
            }
        } else if tag == 2 {
            let bytes = slice_to_vec(rest);
            match string_from_utf8(bytes) {
                Some(s) => Some(Message::String(s)),
                None => None,
            }
        } else {
            None
        }
    }
}

/// The encoding of a response: its tag alone.
pub open spec fn spec_enc_response(v: Response) -> Seq<u8> {
    match v {
        Response::Okay => spec_u32_to_le_bytes(0u32),
        Response::NotOkay => spec_u32_to_le_bytes(1u32),
    }
}

/// The response a byte sequence decodes to: `Some` exactly on encodings.
pub open spec fn spec_dec_response(b: Seq<u8>) -> Option<Response> {
    if b.len() != 4 {
        None
    } else {
        let tag = spec_u32_from_le_bytes(b);
        if tag == 0 {
            Some(Response::Okay)
        } else if tag == 1 {
            Some(Response::NotOkay)
        } else {
            None
        }
    }
}

impl WireValue for Response {
    open spec fn wire_enc(v: Response) -> Seq<u8> {
        spec_enc_response(v)
    }

    open spec fn wire_dec(b: Seq<u8>) -> Option<Response> {
        spec_dec_response(b)
    }

    proof fn wire_round_trip(v: Response) {
        lemma_auto_spec_u32_to_from_le_bytes();
    }

    proof fn wire_dec_exact(b: Seq<u8>) {
        lemma_auto_spec_u32_to_from_le_bytes();
        if spec_dec_response(b) is Some {
            assert(b == spec_u32_to_le_bytes(spec_u32_from_le_bytes(b)));
        }
    }

    fn encode(&self) -> (r: Vec<u8>) {
        match self {
            Response::Okay => u32_to_le_bytes(0),
            Response::NotOkay => u32_to_le_bytes(1),
        }
    }

    fn decode(b: &[u8]) -> (r: Option<Response>) {
        if b.len() != 4 {
            return None;
        }
        let tag = u32_from_le_bytes(b);
        if tag == 0 {
            Some(Response::Okay)
        } else if tag == 1 {
            Some(Response::NotOkay)
        } else {
            None
        }
    }
}

} // verus!
