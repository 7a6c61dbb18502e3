//! The 32-bit integers of a frame's header, written in either byte order,
//! and the host's order, which the wire uses.
use vstd::prelude::*;

verus! {

/// The order in which a 32-bit integer's bytes stand on the wire. The peer
/// writes integers in its native order, so a client uses the host's order,
/// which `ByteOrder::native` finds out.
#[derive(Clone, Copy, Debug, PartialEq, Eq, Structural)]
pub enum ByteOrder {
    Little,
    Big,
}

/// The four bytes of `x`, least significant first.
pub open spec fn le_bytes(x: u32) -> Seq<u8> {
    seq![(x & 0xff) as u8, ((x >> 8) & 0xff) as u8, ((x >> 16) & 0xff) as u8, ((x >> 24) & 0xff) as u8]
}

/// The four bytes of `x` in the given order.
pub open spec fn u32_bytes(order: ByteOrder, x: u32) -> Seq<u8> {
    match order {
        ByteOrder::Little => le_bytes(x),
        ByteOrder::Big => seq![le_bytes(x)[3], le_bytes(x)[2], le_bytes(x)[1], le_bytes(x)[0]],
    }
}

/// The integer whose bytes, least significant first, are `b0 b1 b2 b3`.
pub open spec fn le_value(b0: u8, b1: u8, b2: u8, b3: u8) -> u32 {
    (b0 as u32) | ((b1 as u32) << 8) | ((b2 as u32) << 16) | ((b3 as u32) << 24)
}

/// The integer that the four bytes `b[0..4]` stand for in the given order.
pub open spec fn u32_value(order: ByteOrder, b: Seq<u8>) -> u32
    recommends
        b.len() >= 4,
{
    match order {
        ByteOrder::Little => le_value(b[0], b[1], b[2], b[3]),
        ByteOrder::Big => le_value(b[3], b[2], b[1], b[0]),
    }
}

proof fn lemma_le_round_trip(x: u32)
    ensures
        le_value(
            (x & 0xff) as u8,
            ((x >> 8) & 0xff) as u8,
            ((x >> 16) & 0xff) as u8,
            ((x >> 24) & 0xff) as u8,
        ) == x,
{
    assert(((((x & 0xff) as u8) as u32) | (((((x >> 8) & 0xff) as u8) as u32) << 8) | (
    ((((x >> 16) & 0xff) as u8) as u32) << 16) | (((((x >> 24) & 0xff) as u8) as u32) << 24))
        == x) by (bit_vector);
}

/// Reading back the bytes of an integer gives the integer.
pub proof fn lemma_u32_round_trip(order: ByteOrder, x: u32)
    ensures
        u32_bytes(order, x).len() == 4,
        u32_value(order, u32_bytes(order, x)) == x,
{
    lemma_le_round_trip(x);
}

/// Relies on u32::to_ne_bytes: the bytes of `x` in the host's order, which
/// is one of the two orders.
#[verifier::external_body]
fn native_bytes(x: u32) -> (r: [u8; 4])
    ensures
        r@ == u32_bytes(ByteOrder::Little, x) || r@ == u32_bytes(ByteOrder::Big, x),
{
    x.to_ne_bytes()
}

impl ByteOrder {
    /// The host's byte order, the one the peer uses for integers on the wire.
    pub fn native() -> (r: ByteOrder) {
        let b = native_bytes(1);
        if b[0] == 1 {
            ByteOrder::Little
        } else {
            ByteOrder::Big
        }
    }
}

/// The four bytes of `x` in the given order.
pub fn u32_to_bytes(order: ByteOrder, x: u32) -> (r: [u8; 4])
    ensures
        r@ == u32_bytes(order, x),
{
    let b0 = (x & 0xff) as u8;
    let b1 = ((x >> 8) & 0xff) as u8;
    let b2 = ((x >> 16) & 0xff) as u8;
    let b3 = ((x >> 24) & 0xff) as u8;
    let r = match order {
        ByteOrder::Little => [b0, b1, b2, b3],
        ByteOrder::Big => [b3, b2, b1, b0],
    };
    assert(r@ =~= u32_bytes(order, x));
    r
}

/// The integer that four bytes stand for in the given order.
pub fn u32_from_bytes(order: ByteOrder, b0: u8, b1: u8, b2: u8, b3: u8) -> (r: u32)
    ensures
        r == u32_value(order, seq![b0, b1, b2, b3]),
{
    let (l0, l1, l2, l3) = match order {
        ByteOrder::Little => (b0, b1, b2, b3),
        ByteOrder::Big => (b3, b2, b1, b0),
    };
    (l0 as u32) | ((l1 as u32) << 8) | ((l2 as u32) << 16) | ((l3 as u32) << 24)
}

} // verus!
