use vstd::prelude::*;
use vstd::utf8::{decode_utf8, encode_utf8, valid_utf8};

use crate::error::MaazDBError;

verus! {

// Wire-level type tags; the values are fixed by the protocol and must
// match the server exactly.
pub const PACKET_HANDSHAKE: u8 = 0x10;

pub const PACKET_AUTH_OK: u8 = 0x11;

pub const PACKET_AUTH_ERR: u8 = 0x12;

pub const PACKET_QUERY: u8 = 0x20;

pub const PACKET_MSG: u8 = 0x02;

pub const PACKET_DATA: u8 = 0x03;

/// Upper bound (10 MiB) on the payload length a peer may declare. The
/// bound turns an unbounded remote-controlled allocation into a bounded
/// one and must be checked before any payload byte is consumed.
pub const MAX_PAYLOAD_LEN: u32 = 10485760;

/// The four big-endian bytes of a 32-bit length field.
pub open spec fn spec_u32_to_be_bytes(x: u32) -> Seq<u8> {
    seq![
        ((x >> 24) & 0xff) as u8,
        ((x >> 16) & 0xff) as u8,
        ((x >> 8) & 0xff) as u8,
        (x & 0xff) as u8,
    ]
}

/// The 32-bit value of four big-endian bytes.
pub open spec fn spec_u32_from_be_bytes(s: Seq<u8>) -> u32
    recommends
        s.len() == 4,
{
    ((s[0] as u32) << 24) | ((s[1] as u32) << 16) | ((s[2] as u32) << 8) | (s[3] as u32)
}

pub proof fn lemma_u32_be_bytes_round_trip(x: u32)
    ensures
        spec_u32_to_be_bytes(x).len() == 4,
        spec_u32_from_be_bytes(spec_u32_to_be_bytes(x)) == x,
{
    assert((((((x >> 24) & 0xff) as u8) as u32) << 24) | (((((x >> 16) & 0xff) as u8) as u32)
        << 16) | (((((x >> 8) & 0xff) as u8) as u32) << 8) | (((x & 0xff) as u8) as u32)
        == x) by (bit_vector);
}

/// One complete frame: a 1-byte type tag, the payload length as four
/// big-endian bytes, then the payload itself.
pub open spec fn spec_frame(ptype: u8, payload: Seq<u8>) -> Seq<u8>
    recommends
        payload.len() <= u32::MAX,
{
    seq![ptype] + spec_u32_to_be_bytes(payload.len() as u32) + payload
}

/// The length a frame's header declares for its payload.
pub open spec fn spec_declared_len(buf: Seq<u8>) -> u32
    recommends
        buf.len() >= 5,
{
    spec_u32_from_be_bytes(buf.subrange(1, 5))
}

/// Whether `buf` starts with a complete frame whose declared length is
/// within the ceiling.
pub open spec fn frame_ok(buf: Seq<u8>) -> bool {
    &&& buf.len() >= 5
    &&& spec_declared_len(buf) <= MAX_PAYLOAD_LEN
    &&& buf.len() >= 5 + spec_declared_len(buf)
}

/// The type tag of the frame at the start of `buf`.
pub open spec fn frame_type(buf: Seq<u8>) -> u8
    recommends
        buf.len() >= 1,
{
    buf[0]
}

/// The payload bytes of the frame at the start of `buf`.
pub open spec fn frame_payload(buf: Seq<u8>) -> Seq<u8>
    recommends
        frame_ok(buf),
{
    buf.subrange(5, 5 + spec_declared_len(buf) as int)
}

/// What `String::from_utf8_lossy` yields for a given byte sequence; the
/// result depends on the bytes alone.
pub uninterp spec fn utf8_lossy(bytes: Seq<u8>) -> Seq<char>;

/// Relies on `String::from_utf8_lossy`: the result is a function of the
/// input bytes alone, and on valid UTF-8 input it is exactly the decoded
/// text (invalid sequences are replaced, so decoding is always total).
#[verifier::external_body]
fn decode_utf8_lossy(bytes: &Vec<u8>) -> (r: String)
    ensures
        r@ == utf8_lossy(bytes@),
        valid_utf8(bytes@) ==> r@ == decode_utf8(bytes@),
{
    String::from_utf8_lossy(bytes).to_string()
}

/// Writes a 32-bit value as four big-endian bytes.
pub fn u32_to_be_bytes(x: u32) -> (r: Vec<u8>)
    ensures
        r@ == spec_u32_to_be_bytes(x),
{
    proof {
        assert((x >> 24) & 0xff < 256 && (x >> 16) & 0xff < 256 && (x >> 8) & 0xff < 256 && x
            & 0xff < 256) by (bit_vector);
    }
    let mut r: Vec<u8> = Vec::new();
    r.push(((x >> 24) & 0xff) as u8);
    r.push(((x >> 16) & 0xff) as u8);
    r.push(((x >> 8) & 0xff) as u8);
    r.push((x & 0xff) as u8);
    proof {
        assert(r@ =~= spec_u32_to_be_bytes(x));
    }
    r
}

/// Reads a 32-bit value from four big-endian bytes.
pub fn u32_from_be_bytes(b0: u8, b1: u8, b2: u8, b3: u8) -> (x: u32)
    ensures
        x == spec_u32_from_be_bytes(seq![b0, b1, b2, b3]),
{
    ((b0 as u32) << 24) | ((b1 as u32) << 16) | ((b2 as u32) << 8) | (b3 as u32)
}

/// Encodes one packet for the wire: the type byte, the payload length as
/// four big-endian bytes, then the raw payload bytes.
pub fn encode_packet(ptype: u8, payload: &Vec<u8>) -> (r: Vec<u8>)
    requires
        payload@.len() <= u32::MAX,
    ensures
        r@ == spec_frame(ptype, payload@),
{
    let mut r: Vec<u8> = Vec::new();
    r.push(ptype);
    let mut header = u32_to_be_bytes(payload.len() as u32);
    r.append(&mut header);
    r.extend_from_slice(payload.as_slice());
    proof {
        assert(r@ =~= spec_frame(ptype, payload@));
    }
    r
}

/// Holds a declared payload length against the ceiling. Called before
/// the payload buffer is allocated, so that a hostile or buggy peer
/// cannot force an unbounded allocation.
pub fn check_payload_len(len: u32) -> (r: Result<(), MaazDBError>)
    ensures
        r is Ok <==> len <= MAX_PAYLOAD_LEN,
        r matches Err(e) ==> (e matches MaazDBError::IoError(m) && m@ == "Packet too large"@),
{
    if len > MAX_PAYLOAD_LEN {
        Err(MaazDBError::IoError("Packet too large".to_owned()))
    } else {
        Ok(())
    }
}

/// Reads exactly one packet from the front of `buf`: the type byte, the
/// four length bytes, then the declared number of payload bytes, decoded
/// as UTF-8 with invalid sequences replaced. The declared length is held
/// against the ceiling before the payload is touched. Returns the type
/// tag, the payload text, and how many bytes the frame occupied.
pub fn read_packet(buf: &Vec<u8>) -> (r: Result<(u8, String, usize), MaazDBError>)
    ensures
        r matches Ok(p) ==> {
            &&& frame_ok(buf@)
            &&& p.0 == frame_type(buf@)
            &&& p.1@ == utf8_lossy(frame_payload(buf@))
            &&& valid_utf8(frame_payload(buf@)) ==> p.1@ == decode_utf8(frame_payload(buf@))
            &&& p.2 == 5 + spec_declared_len(buf@)
        },
        r matches Err(e) ==> {
            &&& !frame_ok(buf@)
            &&& e matches MaazDBError::IoError(m) && m@ == (
            if buf@.len() >= 5 && spec_declared_len(buf@) > MAX_PAYLOAD_LEN {
                "Packet too large"@
            } else {
                "Unexpected end of stream"@
            })
        },
{
    if buf.len() < 5 {
        return Err(MaazDBError::IoError("Unexpected end of stream".to_owned()));
    }
    let ptype = buf[0];
    let len = u32_from_be_bytes(buf[1], buf[2], buf[3], buf[4]);
    proof {
        assert(seq![buf@[1], buf@[2], buf@[3], buf@[4]] =~= buf@.subrange(1, 5));
    }
    if let Err(e) = check_payload_len(len) {
        return Err(e);
    }
    let total: usize = 5 + len as usize;
    if buf.len() < total {
        return Err(MaazDBError::IoError("Unexpected end of stream".to_owned()));
    }
    let mut payload: Vec<u8> = Vec::new();
    let mut i: usize = 5;
    while i < total
        invariant
            5 <= i <= total,
            total == 5 + spec_declared_len(buf@),
            total <= buf@.len(),
            payload@ =~= buf@.subrange(5, i as int),
        decreases total - i,
    {
        payload.push(buf[i]);
        i = i + 1;
    }
    proof {
        assert(payload@ =~= frame_payload(buf@));
    }
    let msg = decode_utf8_lossy(&payload);
    Ok((ptype, msg, total))
}

/// Round-trip framing: a frame built from any type tag and any payload
/// within the ceiling parses back to the same tag and payload, and
/// occupies exactly the bytes that were written.
pub proof fn lemma_frame_round_trip(ptype: u8, payload: Seq<u8>)
    requires
        payload.len() <= MAX_PAYLOAD_LEN,
    ensures
        frame_ok(spec_frame(ptype, payload)),
        frame_type(spec_frame(ptype, payload)) == ptype,
        frame_payload(spec_frame(ptype, payload)) == payload,
        spec_frame(ptype, payload).len() == 5 + payload.len(),
{
    let buf = spec_frame(ptype, payload);
    let n = payload.len() as u32;
    lemma_u32_be_bytes_round_trip(n);
    assert(buf.subrange(1, 5) =~= spec_u32_to_be_bytes(n));
    assert(spec_declared_len(buf) == n);
    assert(frame_payload(buf) =~= payload);
}

/// A textual payload survives the round trip exactly: the UTF-8 bytes of
/// any text within the ceiling are valid UTF-8, so the lossy decoding
/// applied on the way back replaces nothing and yields the text itself.
pub proof fn lemma_text_round_trip(ptype: u8, text: Seq<char>)
    requires
        encode_utf8(text).len() <= MAX_PAYLOAD_LEN,
    ensures
        frame_ok(spec_frame(ptype, encode_utf8(text))),
        frame_type(spec_frame(ptype, encode_utf8(text))) == ptype,
        valid_utf8(frame_payload(spec_frame(ptype, encode_utf8(text)))),
        decode_utf8(frame_payload(spec_frame(ptype, encode_utf8(text)))) == text,
{
    broadcast use vstd::utf8::encode_utf8_valid_utf8, vstd::utf8::encode_utf8_decode_utf8;

    lemma_frame_round_trip(ptype, encode_utf8(text));
}

} // verus!
