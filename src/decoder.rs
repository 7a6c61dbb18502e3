//! The streaming decoder: bytes arrive in chunks of any size, and each call
//! of `decode` takes at most one complete frame off the front of the buffer.
use vstd::prelude::*;
use crate::buffer::{buffered, buffer_new, buffer_len, buffer_append, buffer_byte, buffer_advance};
use crate::error::ProtocolError;
use crate::frame::{
    HEADER_LEN, Header, frame_bytes, has_magic, header_payload_len, header_tag, lemma_frame_parts,
    parse_header,
};
use crate::wire::ByteOrder;

verus! {

/// A frame taken off the wire: its type tag and its payload bytes.
#[derive(Clone, Debug, PartialEq, Eq)]
pub struct Frame {
    pub tag: u32,
    pub payload: Vec<u8>,
}

/// Whether the buffer holds more than a header's worth of bytes and does not
/// start with the magic tag.
pub open spec fn starts_badly(buf: Seq<u8>) -> bool {
    buf.len() > HEADER_LEN && !has_magic(buf)
}

/// Where the frame at the front of the buffer ends.
pub open spec fn frame_end(order: ByteOrder, buf: Seq<u8>) -> int {
    HEADER_LEN + header_payload_len(order, buf)
}

/// The frame at the front of the buffer, as tag and payload, if the buffer
/// holds more than a header, starts with the magic tag and holds the whole
/// payload.
pub open spec fn front_frame(order: ByteOrder, buf: Seq<u8>) -> Option<(u32, Seq<u8>)> {
    if buf.len() > HEADER_LEN && has_magic(buf) && buf.len() >= frame_end(order, buf) {
        Some((header_tag(order, buf), buf.subrange(HEADER_LEN as int, frame_end(order, buf))))
    } else {
        None
    }
}

/// What stays buffered after one decode attempt that did not fail.
pub open spec fn after_front(order: ByteOrder, buf: Seq<u8>) -> Seq<u8> {
    if front_frame(order, buf) is Some {
        buf.subrange(frame_end(order, buf), buf.len() as int)
    } else {
        buf
    }
}

/// The frames that come out when each chunk in turn is appended to the
/// buffer and one decode attempt follows, and what stays buffered. It stops
/// at a bad magic tag.
pub open spec fn feed_each(order: ByteOrder, buf: Seq<u8>, chunks: Seq<Seq<u8>>) -> (Seq<(u32, Seq<u8>)>, Seq<u8>)
    decreases chunks.len(),
{
    if chunks.len() == 0 {
        (Seq::empty(), buf)
    } else {
        let b = buf + chunks[0];
        if starts_badly(b) {
            (Seq::empty(), b)
        } else {
            let next = feed_each(order, after_front(order, b), chunks.drop_first());
            match front_frame(order, b) {
                Some(f) => (seq![f] + next.0, next.1),
                None => next,
            }
        }
    }
}

/// The frames that come out of up to `calls` decode attempts on the buffer
/// with nothing fed in between, and what stays buffered. It stops at the
/// first attempt that yields no frame.
pub open spec fn drain(order: ByteOrder, buf: Seq<u8>, calls: nat) -> (Seq<(u32, Seq<u8>)>, Seq<u8>)
    decreases calls,
{
    if calls == 0 {
        (Seq::empty(), buf)
    } else {
        match front_frame(order, buf) {
            Some(f) => {
                let next = drain(order, after_front(order, buf), (calls - 1) as nat);
                (seq![f] + next.0, next.1)
            },
            None => (Seq::empty(), buf),
        }
    }
}

/// A prefix of a frame that is shorter than the frame yields no frame and
/// no error; the whole frame yields itself.
proof fn lemma_prefix_of_frame(order: ByteOrder, tag: u32, payload: Seq<u8>, b: Seq<u8>)
    requires
        payload.len() <= u32::MAX,
        b.len() <= frame_bytes(order, tag, payload).len(),
        b == frame_bytes(order, tag, payload).subrange(0, b.len() as int),
    ensures
        !starts_badly(b),
        b.len() < frame_bytes(order, tag, payload).len() ==> front_frame(order, b) is None,
        b.len() == frame_bytes(order, tag, payload).len() && payload.len() > 0 ==> front_frame(
            order,
            b,
        ) == Some((tag, payload)) && after_front(order, b) == Seq::<u8>::empty(),
{
    let f = frame_bytes(order, tag, payload);
    lemma_frame_parts(order, tag, payload);
    if b.len() > HEADER_LEN {
        assert(b.subrange(0, 6) =~= f.subrange(0, 6));
        assert(b.subrange(6, 10) =~= f.subrange(6, 10));
        assert(b.subrange(10, 14) =~= f.subrange(10, 14));
    }
    if b.len() == f.len() {
        assert(b =~= f);
        assert(b.subrange(frame_end(order, b), b.len() as int) =~= Seq::<u8>::empty());
    }
}

proof fn lemma_flatten_nonempty(chunks: Seq<Seq<u8>>)
    requires
        chunks.len() > 0,
        chunks[0].len() > 0,
    ensures
        chunks.flatten().len() > 0,
{
    assert(chunks.flatten() == chunks[0] + chunks.drop_first().flatten());
}

proof fn lemma_feed_rest_of_frame(
    order: ByteOrder,
    tag: u32,
    payload: Seq<u8>,
    buf: Seq<u8>,
    chunks: Seq<Seq<u8>>,
)
    requires
        0 < payload.len() <= u32::MAX,
        buf + chunks.flatten() == frame_bytes(order, tag, payload),
        buf.len() < frame_bytes(order, tag, payload).len(),
        forall|i: int| 0 <= i < chunks.len() ==> #[trigger] chunks[i].len() > 0,
    ensures
        feed_each(order, buf, chunks) == (seq![(tag, payload)], Seq::<u8>::empty()),
    decreases chunks.len(),
{
    let f = frame_bytes(order, tag, payload);
    if chunks.len() == 0 {
        assert(buf + chunks.flatten() =~= buf);
    } else {
        assert(chunks.flatten() == chunks[0] + chunks.drop_first().flatten());
        let b = buf + chunks[0];
        let rest = chunks.drop_first();
        assert(b + rest.flatten() =~= f);
        assert(b =~= f.subrange(0, b.len() as int));
        lemma_prefix_of_frame(order, tag, payload, b);
        if b.len() < f.len() {
            assert forall|i: int| 0 <= i < rest.len() implies #[trigger] rest[i].len() > 0 by {
                assert(rest[i] == chunks[i + 1]);
            }
            lemma_feed_rest_of_frame(order, tag, payload, b, rest);
            assert(after_front(order, b) == b);
            assert(feed_each(order, buf, chunks) == feed_each(order, b, rest));
        } else {
            if rest.len() > 0 {
                assert(rest[0] == chunks[1]);
                lemma_flatten_nonempty(rest);
            }
            assert(rest.len() == 0);
            assert(seq![(tag, payload)] + Seq::<(u32, Seq<u8>)>::empty() =~= seq![(tag, payload)]);
            assert(feed_each(order, Seq::<u8>::empty(), rest) == (Seq::<(u32, Seq<u8>)>::empty(), Seq::<u8>::empty()));
        }
    }
}

/// Partial feeding: feeding the bytes of one frame with a non-empty payload
/// in any sequence of non-empty chunks, with one decode attempt after each,
/// yields exactly that frame and leaves nothing buffered, as feeding the
/// whole frame at once does.
pub proof fn lemma_partial_feeding(order: ByteOrder, tag: u32, payload: Seq<u8>, chunks: Seq<Seq<u8>>)
    requires
        0 < payload.len() <= u32::MAX,
        chunks.flatten() == frame_bytes(order, tag, payload),
        forall|i: int| 0 <= i < chunks.len() ==> #[trigger] chunks[i].len() > 0,
    ensures
        feed_each(order, Seq::empty(), chunks) == (seq![(tag, payload)], Seq::<u8>::empty()),
        feed_each(order, Seq::empty(), chunks) == feed_each(
            order,
            Seq::empty(),
            seq![frame_bytes(order, tag, payload)],
        ),
{
    let f = frame_bytes(order, tag, payload);
    lemma_frame_parts(order, tag, payload);
    assert(Seq::<u8>::empty() + chunks.flatten() =~= chunks.flatten());
    lemma_feed_rest_of_frame(order, tag, payload, Seq::empty(), chunks);
    let whole = seq![f];
    assert(whole.flatten() == whole[0] + whole.drop_first().flatten());
    assert(whole.drop_first() =~= Seq::<Seq<u8>>::empty());
    assert(whole.flatten() =~= f);
    assert(Seq::<u8>::empty() + whole.flatten() =~= whole.flatten());
    lemma_feed_rest_of_frame(order, tag, payload, Seq::empty(), whole);
}

/// Frame independence: two frames, the second with a non-empty payload,
/// fed as one buffer come out, by repeated decode attempts, as the two
/// frames in their order, with nothing left buffered.
pub proof fn lemma_two_frames(
    order: ByteOrder,
    tag1: u32,
    payload1: Seq<u8>,
    tag2: u32,
    payload2: Seq<u8>,
    calls: nat,
)
    requires
        payload1.len() <= u32::MAX,
        0 < payload2.len() <= u32::MAX,
        calls >= 2,
    ensures
        drain(order, frame_bytes(order, tag1, payload1) + frame_bytes(order, tag2, payload2), calls)
            == (seq![(tag1, payload1), (tag2, payload2)], Seq::<u8>::empty()),
{
    let f1 = frame_bytes(order, tag1, payload1);
    let f2 = frame_bytes(order, tag2, payload2);
    let both = f1 + f2;
    lemma_frame_parts(order, tag1, payload1);
    lemma_frame_parts(order, tag2, payload2);
    assert(both.subrange(0, 6) =~= f1.subrange(0, 6));
    assert(both.subrange(6, 10) =~= f1.subrange(6, 10));
    assert(both.subrange(10, 14) =~= f1.subrange(10, 14));
    assert(both.subrange(HEADER_LEN as int, frame_end(order, both)) =~= f1.subrange(
        HEADER_LEN as int,
        HEADER_LEN + payload1.len(),
    ));
    assert(after_front(order, both) =~= f2);
    assert(f2 =~= f2.subrange(0, f2.len() as int));
    lemma_prefix_of_frame(order, tag2, payload2, f2);
    let k = (calls - 2) as nat;
    assert(drain(order, Seq::<u8>::empty(), k) == (Seq::<(u32, Seq<u8>)>::empty(), Seq::<u8>::empty()));
    assert(drain(order, f2, (calls - 1) as nat).0 =~= seq![(tag2, payload2)]);
    assert(drain(order, both, calls).0 =~= seq![(tag1, payload1), (tag2, payload2)]);
}

/// A frame whose first six bytes were corrupted, followed by at least one
/// more byte, makes the decoder fail with `BadMagic` rather than yield.
pub proof fn lemma_decoder_bad_magic(order: ByteOrder, tag: u32, payload: Seq<u8>, i: int, v: u8, more: Seq<u8>)
    requires
        payload.len() <= u32::MAX,
        0 <= i < 6,
        v != frame_bytes(order, tag, payload)[i],
        payload.len() + more.len() > 0,
    ensures
        starts_badly(frame_bytes(order, tag, payload).update(i, v) + more),
{
    let f = frame_bytes(order, tag, payload);
    lemma_frame_parts(order, tag, payload);
    let g = f.update(i, v) + more;
    assert(g[i] == v);
    assert(f.subrange(0, 6)[i] == f[i]);
    assert(g.subrange(0, 6)[i] == v);
}

/// A frame with an empty payload, followed by further bytes, comes off the
/// buffer by itself with an empty payload.
pub proof fn lemma_decoder_empty_payload(order: ByteOrder, tag: u32, more: Seq<u8>)
    requires
        more.len() > 0,
    ensures
        front_frame(order, frame_bytes(order, tag, Seq::empty()) + more) == Some(
            (tag, Seq::<u8>::empty()),
        ),
        after_front(order, frame_bytes(order, tag, Seq::empty()) + more) == more,
{
    let f = frame_bytes(order, tag, Seq::empty());
    lemma_frame_parts(order, tag, Seq::empty());
    let g = f + more;
    assert(g.subrange(0, 6) =~= f.subrange(0, 6));
    assert(g.subrange(6, 10) =~= f.subrange(6, 10));
    assert(g.subrange(10, 14) =~= f.subrange(10, 14));
    assert(g.subrange(14, 14) =~= Seq::<u8>::empty());
    assert(g.subrange(14, g.len() as int) =~= more);
}

/// Takes frames off a growing byte buffer, one per call of `decode`.
pub struct StreamDecoder {
    order: ByteOrder,
    buf: bytes::BytesMut,
    failed: bool,
}

impl StreamDecoder {
    /// The byte order used to read the header's integers.
    pub closed spec fn order(&self) -> ByteOrder {
        self.order
    }

    /// The bytes received and not yet taken off as frames.
    pub closed spec fn pending(&self) -> Seq<u8> {
        buffered(self.buf)
    }

    /// Whether a bad magic tag was met; the stream cannot be read further.
    pub closed spec fn failed(&self) -> bool {
        self.failed
    }

    /// An empty decoder that reads integers in the given order.
    pub fn new(order: ByteOrder) -> (r: StreamDecoder)
        ensures
            r.order() == order,
            r.pending() == Seq::<u8>::empty(),
            !r.failed(),
    {
        StreamDecoder { order, buf: buffer_new(), failed: false }
    }

    /// The number of bytes buffered.
    pub fn pending_len(&self) -> (r: usize)
        ensures
            r == self.pending().len(),
    {
        buffer_len(&self.buf)
    }

    /// Appends bytes that arrived from the source.
    pub fn feed(&mut self, bytes: &[u8])
        requires
            old(self).pending().len() + bytes@.len() <= isize::MAX,
        ensures
            final(self).pending() == old(self).pending() + bytes@,
            final(self).order() == old(self).order(),
            final(self).failed() == old(self).failed(),
    {
        buffer_append(&mut self.buf, bytes);
    }

    fn copy_range(&self, start: usize, end: usize) -> (r: Vec<u8>)
        requires
            start <= end <= self.pending().len(),
        ensures
            r@ == self.pending().subrange(start as int, end as int),
    {
        let mut out: Vec<u8> = Vec::new();
        let mut i: usize = start;
        while i < end
            invariant
                start <= i <= end <= self.pending().len(),
                out@ == self.pending().subrange(start as int, i as int),
            decreases end - i,
        {
            let b = buffer_byte(&self.buf, i);
            out.push(b);
            i = i + 1;
            assert(out@ =~= self.pending().subrange(start as int, i as int));
        }
        out
    }

    /// One decode attempt. With a header's worth of bytes or fewer, or a
    /// frame not yet complete, it returns `Ok(None)` and consumes nothing.
    /// With a complete frame at the front it returns it and consumes exactly
    /// its bytes. Where the bytes after a header's worth do not start with
    /// the magic tag, it fails with `BadMagic`, keeps the bytes, and fails
    /// so on every later call.
    pub fn decode(&mut self) -> (r: Result<Option<Frame>, ProtocolError>)
        ensures
            final(self).order() == old(self).order(),
            old(self).failed() || starts_badly(old(self).pending()) ==> {
                &&& r == Err::<Option<Frame>, ProtocolError>(ProtocolError::BadMagic)
                &&& final(self).failed()
                &&& final(self).pending() == old(self).pending()
            },
            !(old(self).failed() || starts_badly(old(self).pending())) ==> {
                &&& r is Ok
                &&& !final(self).failed()
                &&& final(self).pending() == after_front(old(self).order(), old(self).pending())
                &&& match r {
                    Ok(Some(f)) => front_frame(old(self).order(), old(self).pending()) == Some(
                        (f.tag, f.payload@),
                    ),
                    _ => front_frame(old(self).order(), old(self).pending()) is None,
                }
            },
    {
        if self.failed {
            return Err(ProtocolError::BadMagic);
        }
        let len = buffer_len(&self.buf);
        if len <= HEADER_LEN {
            return Ok(None);
        }
        let header = self.copy_range(0, HEADER_LEN);
        let ghost buf = self.pending();
        proof {
            assert(header@.subrange(0, 6) =~= buf.subrange(0, 6));
            assert(header@.subrange(6, 10) =~= buf.subrange(6, 10));
            assert(header@.subrange(10, 14) =~= buf.subrange(10, 14));
        }
        let h: Header = match parse_header(self.order, header.as_slice()) {
            Err(e) => {
                self.failed = true;
                return Err(e);
            },
            Ok(h) => h,
        };
        let avail = len - HEADER_LEN;
        if (avail as u64) < (h.payload_len as u64) {
            return Ok(None);
        }
        let end = HEADER_LEN + h.payload_len as usize;
        let payload = self.copy_range(HEADER_LEN, end);
        buffer_advance(&mut self.buf, end);
        Ok(Some(Frame { tag: h.tag, payload }))
    }
}

} // verus!
