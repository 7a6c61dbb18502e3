//! The blocking reader's decisions: read a header's worth of bytes, check
//! the magic tag, then read exactly the payload the header announces. The
//! caller does the reads; the reader says how many bytes it wants next.
use vstd::prelude::*;
use crate::decoder::Frame;
use crate::error::ProtocolError;
use crate::frame::{
    HEADER_LEN, frame_bytes, has_magic, header_payload_len, header_tag, lemma_frame_parts,
    parse_header,
};
use crate::wire::ByteOrder;

verus! {

/// The longest payload the reader accepts, 64 MiB. The header's length
/// field could announce up to 4 GiB; a peer that sends more than any
/// reply needs is cut off before the payload is read.
pub const MAX_PAYLOAD_LEN: u32 = 0x0400_0000;

/// What the reader waits for.
#[derive(Clone, Copy, Debug, PartialEq, Eq, Structural)]
pub enum ReadStep {
    /// The next header.
    Header,
    /// The payload of a frame whose header was read.
    Payload { tag: u32, len: u32 },
}

/// The number of bytes a step waits for.
pub open spec fn wanted_by(step: ReadStep) -> nat {
    match step {
        ReadStep::Header => HEADER_LEN as nat,
        ReadStep::Payload { len, .. } => len as nat,
    }
}

/// Reads frames from a blocking source, header first, then payload.
pub struct FrameReader {
    order: ByteOrder,
    step: ReadStep,
}

impl FrameReader {
    /// The byte order used to read the header's integers.
    pub closed spec fn order(&self) -> ByteOrder {
        self.order
    }

    /// What the reader waits for.
    pub closed spec fn step(&self) -> ReadStep {
        self.step
    }

    /// A reader that waits for a header.
    pub fn new(order: ByteOrder) -> (r: FrameReader)
        ensures
            r.order() == order,
            r.step() == ReadStep::Header,
    {
        FrameReader { order, step: ReadStep::Header }
    }

    /// The number of bytes to read next, all of them before calling `supply`.
    pub fn wanted(&self) -> (r: usize)
        ensures
            r == wanted_by(self.step()),
    {
        match self.step {
            ReadStep::Header => HEADER_LEN,
            ReadStep::Payload { len, .. } => len as usize,
        }
    }

    /// Takes the bytes that `wanted` asked for. A header with a bad magic
    /// tag fails with `BadMagic`, one that announces a payload longer than
    /// `MAX_PAYLOAD_LEN` with `PayloadTooLarge`; the connection must then
    /// be dropped. A header that announces no payload completes a frame by itself; one
    /// that announces a payload makes the reader wait for it. A payload
    /// completes its frame, and the reader waits for the next header.
    pub fn supply(&mut self, bytes: &[u8]) -> (r: Result<Option<Frame>, ProtocolError>)
        requires
            bytes@.len() == wanted_by(old(self).step()),
        ensures
            final(self).order() == old(self).order(),
            match old(self).step() {
                ReadStep::Header => {
                    &&& (r is Err <==> !has_magic(bytes@) || header_payload_len(
                        old(self).order(),
                        bytes@,
                    ) > MAX_PAYLOAD_LEN)
                    &&& (!has_magic(bytes@) ==> r == Err::<Option<Frame>, ProtocolError>(
                        ProtocolError::BadMagic,
                    ))
                    &&& (has_magic(bytes@) && header_payload_len(old(self).order(), bytes@)
                        > MAX_PAYLOAD_LEN ==> r == Err::<Option<Frame>, ProtocolError>(
                        ProtocolError::PayloadTooLarge(header_payload_len(old(self).order(), bytes@)),
                    ))
                    &&& (r is Err ==> final(self).step() == old(self).step())
                    &&& has_magic(bytes@) && header_payload_len(old(self).order(), bytes@) == 0
                        ==> final(self).step() == ReadStep::Header && (r matches Ok(Some(f)) && f.tag
                        == header_tag(old(self).order(), bytes@) && f.payload@.len() == 0)
                    &&& has_magic(bytes@) && header_payload_len(old(self).order(), bytes@) != 0
                        && header_payload_len(old(self).order(), bytes@) <= MAX_PAYLOAD_LEN ==> r == Ok::<Option<Frame>, ProtocolError>(None) && final(self).step()
                        == (ReadStep::Payload {
                        tag: header_tag(old(self).order(), bytes@),
                        len: header_payload_len(old(self).order(), bytes@),
                    })
                },
                ReadStep::Payload { tag, len } => {
                    &&& final(self).step() == ReadStep::Header
                    &&& (r matches Ok(Some(f)) && f.tag == tag && f.payload@ == bytes@)
                },
            },
    {
        match self.step {
            ReadStep::Header => {
                let h = parse_header(self.order, bytes)?;
                if h.payload_len > MAX_PAYLOAD_LEN {
                    Err(ProtocolError::PayloadTooLarge(h.payload_len))
                } else if h.payload_len == 0 {
                    Ok(Some(Frame { tag: h.tag, payload: Vec::new() }))
                } else {
                    self.step = ReadStep::Payload { tag: h.tag, len: h.payload_len };
                    Ok(None)
                }
            },
            ReadStep::Payload { tag, .. } => {
                let mut payload: Vec<u8> = Vec::new();
                let mut i: usize = 0;
                while i < bytes.len()
                    invariant
                        i <= bytes@.len(),
                        payload@ == bytes@.subrange(0, i as int),
                    decreases bytes@.len() - i,
                {
                    payload.push(bytes[i]);
                    i = i + 1;
                    assert(payload@ =~= bytes@.subrange(0, i as int));
                }
                assert(bytes@.subrange(0, i as int) =~= bytes@);
                self.step = ReadStep::Header;
                Ok(Some(Frame { tag, payload }))
            },
        }
    }
}

/// Reading a frame's header and then the bytes the reader asks for gives
/// the frame's tag and payload: the header announces the payload's length,
/// and the bytes after it are the payload.
pub proof fn lemma_reader_reads_frame(order: ByteOrder, tag: u32, payload: Seq<u8>)
    requires
        payload.len() <= u32::MAX,
    ensures
        has_magic(frame_bytes(order, tag, payload).subrange(0, HEADER_LEN as int)),
        header_tag(order, frame_bytes(order, tag, payload).subrange(0, HEADER_LEN as int)) == tag,
        header_payload_len(order, frame_bytes(order, tag, payload).subrange(0, HEADER_LEN as int))
            == payload.len(),
        frame_bytes(order, tag, payload).subrange(
            HEADER_LEN as int,
            HEADER_LEN + payload.len(),
        ) == payload,
{
    let f = frame_bytes(order, tag, payload);
    let h = f.subrange(0, HEADER_LEN as int);
    lemma_frame_parts(order, tag, payload);
    assert(h.subrange(0, 6) =~= f.subrange(0, 6));
    assert(h.subrange(6, 10) =~= f.subrange(6, 10));
    assert(h.subrange(10, 14) =~= f.subrange(10, 14));
}

} // verus!
