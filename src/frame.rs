//! Frames: a six-byte magic tag, the payload length and the type tag as
//! 32-bit integers, then the payload.
use vstd::prelude::*;
use vstd::string::StringSliceAdditionalSpecFns;
use crate::error::ProtocolError;
use crate::msg::{Msg, msg_code};
use crate::wire::{ByteOrder, u32_bytes, u32_value, u32_to_bytes, u32_from_bytes, lemma_u32_round_trip};

verus! {

/// The length of a frame's header: magic, payload length and type tag.
pub const HEADER_LEN: usize = 14;

/// The magic tag `i3-ipc` in ASCII.
pub open spec fn magic_spec() -> Seq<u8> {
    seq![105u8, 51u8, 45u8, 105u8, 112u8, 99u8]
}

/// The magic tag that starts every frame, `i3-ipc` in ASCII.
pub fn magic() -> (r: [u8; 6])
    ensures
        r@ == magic_spec(),
{
    let r = [105u8, 51u8, 45u8, 105u8, 112u8, 99u8];
    assert(r@ =~= magic_spec());
    r
}

/// The bytes of a frame with the given type tag and payload.
pub open spec fn frame_bytes(order: ByteOrder, tag: u32, payload: Seq<u8>) -> Seq<u8> {
    magic_spec() + u32_bytes(order, payload.len() as u32) + u32_bytes(order, tag) + payload
}

/// Whether `b` starts with the magic tag.
pub open spec fn has_magic(b: Seq<u8>) -> bool {
    b.len() >= 6 && b.subrange(0, 6) == magic_spec()
}

/// The payload length that a header states.
pub open spec fn header_payload_len(order: ByteOrder, b: Seq<u8>) -> u32 {
    u32_value(order, b.subrange(6, 10))
}

/// The type tag that a header states.
pub open spec fn header_tag(order: ByteOrder, b: Seq<u8>) -> u32 {
    u32_value(order, b.subrange(10, 14))
}

/// The two numbers of a frame's header.
#[derive(Clone, Copy, Debug, PartialEq, Eq, Structural)]
pub struct Header {
    /// The number of payload bytes after the header.
    pub payload_len: u32,
    /// The command code of a reply, or an event tag with bit 31 set.
    pub tag: u32,
}

/// The bytes of the payload, if any: none where there is no payload.
pub open spec fn payload_bytes(payload: Option<&str>) -> Seq<u8> {
    match payload {
        Some(p) => p.spec_bytes(),
        None => Seq::empty(),
    }
}

fn push_all(buf: &mut Vec<u8>, bytes: &[u8])
    ensures
        final(buf)@ == old(buf)@ + bytes@,
{
    let mut i: usize = 0;
    while i < bytes.len()
        invariant
            i <= bytes@.len(),
            buf@ == old(buf)@ + bytes@.subrange(0, i as int),
        decreases bytes@.len() - i,
    {
        buf.push(bytes[i]);
        i = i + 1;
        assert(bytes@.subrange(0, i as int) =~= bytes@.subrange(0, i - 1 as int).push(bytes@[i - 1]));
    }
    assert(bytes@.subrange(0, i as int) =~= bytes@);
}

/// A frame with any type tag: used for commands, and by a peer for replies
/// and events.
pub fn encode_tagged(order: ByteOrder, tag: u32, payload: &[u8]) -> (r: Vec<u8>)
    requires
        payload@.len() <= u32::MAX,
    ensures
        r@ == frame_bytes(order, tag, payload@),
{
    let mut buf: Vec<u8> = Vec::with_capacity(HEADER_LEN);
    let m = magic();
    push_all(&mut buf, &m);
    let len = u32_to_bytes(order, payload.len() as u32);
    push_all(&mut buf, &len);
    let t = u32_to_bytes(order, tag);
    push_all(&mut buf, &t);
    push_all(&mut buf, payload);
    assert(buf@ =~= frame_bytes(order, tag, payload@));
    buf
}

/// A command frame: the command's code as type tag, and the payload's
/// UTF-8 bytes verbatim, or none.
pub fn encode_message(order: ByteOrder, msg: Msg, payload: Option<&str>) -> (r: Vec<u8>)
    requires
        payload_bytes(payload).len() <= u32::MAX,
    ensures
        r@ == frame_bytes(order, msg_code(msg), payload_bytes(payload)),
{
    match payload {
        Some(p) => encode_tagged(order, msg.code(), p.as_bytes()),
        None => {
            let empty: [u8; 0] = [];
            proof {
                assert(empty@ =~= Seq::<u8>::empty());
            }
            encode_tagged(order, msg.code(), &empty)
        },
    }
}

/// A command frame without payload.
pub fn encode_msg(order: ByteOrder, msg: Msg) -> (r: Vec<u8>)
    ensures
        r@ == frame_bytes(order, msg_code(msg), Seq::empty()),
{
    encode_message(order, msg, None)
}

/// A command frame with the given payload text.
pub fn encode_msg_body(order: ByteOrder, msg: Msg, payload: &str) -> (r: Vec<u8>)
    requires
        payload.spec_bytes().len() <= u32::MAX,
    ensures
        r@ == frame_bytes(order, msg_code(msg), payload.spec_bytes()),
{
    encode_message(order, msg, Some(payload))
}

/// Reads the header at the start of `b`: fails with `BadMagic` when the
/// first six bytes are not the magic tag, and checks nothing else.
pub fn parse_header(order: ByteOrder, b: &[u8]) -> (r: Result<Header, ProtocolError>)
    requires
        b@.len() >= HEADER_LEN,
    ensures
        r is Ok <==> has_magic(b@),
        r matches Ok(h) ==> h.payload_len == header_payload_len(order, b@) && h.tag
            == header_tag(order, b@),
        r matches Err(e) ==> e == ProtocolError::BadMagic,
{
    let m = magic();
    if b[0] != m[0] || b[1] != m[1] || b[2] != m[2] || b[3] != m[3] || b[4] != m[4] || b[5]
        != m[5] {
        proof {
            if has_magic(b@) {
                assert(b@.subrange(0, 6)[0] == b@[0]);
                assert(b@.subrange(0, 6)[1] == b@[1]);
                assert(b@.subrange(0, 6)[2] == b@[2]);
                assert(b@.subrange(0, 6)[3] == b@[3]);
                assert(b@.subrange(0, 6)[4] == b@[4]);
                assert(b@.subrange(0, 6)[5] == b@[5]);
            }
        }
        return Err(ProtocolError::BadMagic);
    }
    assert(b@.subrange(0, 6) =~= magic_spec());
    let payload_len = u32_from_bytes(order, b[6], b[7], b[8], b[9]);
    let tag = u32_from_bytes(order, b[10], b[11], b[12], b[13]);
    assert(seq![b[6], b[7], b[8], b[9]] =~= b@.subrange(6, 10));
    assert(seq![b[10], b[11], b[12], b[13]] =~= b@.subrange(10, 14));
    Ok(Header { payload_len, tag })
}

/// What a frame's bytes split into: its header fields and its payload.
pub proof fn lemma_frame_parts(order: ByteOrder, tag: u32, payload: Seq<u8>)
    requires
        payload.len() <= u32::MAX,
    ensures
        frame_bytes(order, tag, payload).len() == HEADER_LEN + payload.len(),
        has_magic(frame_bytes(order, tag, payload)),
        header_payload_len(order, frame_bytes(order, tag, payload)) == payload.len(),
        header_tag(order, frame_bytes(order, tag, payload)) == tag,
        frame_bytes(order, tag, payload).subrange(HEADER_LEN as int, HEADER_LEN + payload.len())
            == payload,
{
    let f = frame_bytes(order, tag, payload);
    lemma_u32_round_trip(order, payload.len() as u32);
    lemma_u32_round_trip(order, tag);
    assert(f.subrange(0, 6) =~= magic_spec());
    assert(f.subrange(6, 10) =~= u32_bytes(order, payload.len() as u32));
    assert(f.subrange(10, 14) =~= u32_bytes(order, tag));
    assert(f.subrange(14, 14 + payload.len() as int) =~= payload);
}

/// Round trip: the header of an encoded command frame gives back the
/// payload's length and the command's code, and the bytes after the header
/// are the payload's UTF-8 bytes exactly.
pub proof fn lemma_encode_parse_round_trip(order: ByteOrder, msg: Msg, payload: Seq<u8>)
    requires
        payload.len() <= u32::MAX,
    ensures
        has_magic(frame_bytes(order, msg_code(msg), payload)),
        header_payload_len(order, frame_bytes(order, msg_code(msg), payload)) == payload.len(),
        header_tag(order, frame_bytes(order, msg_code(msg), payload)) == msg_code(msg),
        frame_bytes(order, msg_code(msg), payload).subrange(
            HEADER_LEN as int,
            frame_bytes(order, msg_code(msg), payload).len() as int,
        ) == payload,
{
    lemma_frame_parts(order, msg_code(msg), payload);
}

/// Corrupting any one of the first six bytes of a frame makes its header
/// fail the magic check.
pub proof fn lemma_corrupt_magic(f: Seq<u8>, i: int, v: u8)
    requires
        has_magic(f),
        0 <= i < 6,
        v != f[i],
    ensures
        !has_magic(f.update(i, v)),
{
    assert(f.update(i, v).subrange(0, 6)[i] == v);
    assert(f.subrange(0, 6)[i] == f[i]);
}

/// A header that announces an empty payload makes a complete frame by
/// itself: its header parses, with payload length zero.
pub proof fn lemma_empty_payload(order: ByteOrder, tag: u32)
    ensures
        frame_bytes(order, tag, Seq::empty()).len() == HEADER_LEN,
        has_magic(frame_bytes(order, tag, Seq::empty())),
        header_payload_len(order, frame_bytes(order, tag, Seq::empty())) == 0,
        header_tag(order, frame_bytes(order, tag, Seq::empty())) == tag,
{
    lemma_frame_parts(order, tag, Seq::empty());
}

} // verus!
