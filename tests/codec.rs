use i3ipc::decoder::{Frame, StreamDecoder};
use i3ipc::error::ProtocolError;
use i3ipc::frame::{encode_msg, encode_msg_body, encode_tagged, magic, parse_header, Header, HEADER_LEN};
use i3ipc::msg::{Msg, Type};
use i3ipc::wire::{u32_from_bytes, u32_to_bytes, ByteOrder};

fn all_msgs() -> Vec<Msg> {
    vec![
        Msg::RunCommand,
        Msg::Workspaces,
        Msg::Subscribe,
        Msg::Outputs,
        Msg::Tree,
        Msg::Marks,
        Msg::BarConfig,
        Msg::Version,
        Msg::BindingModes,
        Msg::Config,
        Msg::Tick,
        Msg::Sync,
        Msg::BindingState,
    ]
}

#[test]
fn magic_is_i3_ipc() {
    assert_eq!(&magic(), b"i3-ipc");
}

#[test]
fn u32_bytes_in_each_order() {
    assert_eq!(u32_to_bytes(ByteOrder::Little, 0x0403_0201), [1, 2, 3, 4]);
    assert_eq!(u32_to_bytes(ByteOrder::Big, 0x0403_0201), [4, 3, 2, 1]);
    assert_eq!(u32_from_bytes(ByteOrder::Little, 1, 2, 3, 4), 0x0403_0201);
    assert_eq!(u32_from_bytes(ByteOrder::Big, 1, 2, 3, 4), 0x0102_0304);
}

#[test]
fn native_order_matches_host() {
    let order = ByteOrder::native();
    assert_eq!(u32_to_bytes(order, 0xdead_beef), 0xdead_beef_u32.to_ne_bytes());
}

#[test]
fn encode_without_payload_little_endian() {
    let f = encode_msg(ByteOrder::Little, Msg::Workspaces);
    assert_eq!(f, b"i3-ipc\x00\x00\x00\x00\x01\x00\x00\x00".to_vec());
}

#[test]
fn encode_with_payload_big_endian() {
    let f = encode_msg_body(ByteOrder::Big, Msg::RunCommand, "exit");
    assert_eq!(f, b"i3-ipc\x00\x00\x00\x04\x00\x00\x00\x00exit".to_vec());
}

#[test]
fn round_trip_every_command() {
    let order = ByteOrder::native();
    for (i, m) in all_msgs().into_iter().enumerate() {
        for p in ["", "x", "[\"window\"]", "héllo ✓"] {
            let f = encode_msg_body(order, m, p);
            let h = parse_header(order, &f).unwrap();
            assert_eq!(h, Header { payload_len: p.len() as u32, tag: i as u32 });
            assert_eq!(&f[HEADER_LEN..], p.as_bytes());
        }
    }
}

#[test]
fn msg_codes_and_back() {
    for (i, m) in all_msgs().into_iter().enumerate() {
        assert_eq!(m.code(), i as u32);
        assert_eq!(Msg::from_code(i as u32), Some(m));
    }
    assert_eq!(Msg::from_code(13), None);
    assert_eq!(Msg::from_code(u32::MAX), None);
}

#[test]
fn type_from_index() {
    assert_eq!(Type::from_index(0), Some(Type::RunCommand));
    assert_eq!(Type::from_index(11), Some(Type::Sync));
    assert_eq!(Type::from_index(12), None);
}

#[test]
fn bad_magic_each_byte() {
    let order = ByteOrder::native();
    let good = encode_msg_body(order, Msg::Tree, "{}");
    for i in 0..6 {
        let mut bad = good.clone();
        bad[i] ^= 0x20;
        assert_eq!(parse_header(order, &bad), Err(ProtocolError::BadMagic));
        let mut d = StreamDecoder::new(order);
        d.feed(&bad);
        assert_eq!(d.decode(), Err(ProtocolError::BadMagic));
        assert_eq!(d.pending_len(), bad.len());
        // The connection stays unusable.
        d.feed(&good);
        assert_eq!(d.decode(), Err(ProtocolError::BadMagic));
    }
}

#[test]
fn zero_length_payload_header() {
    let order = ByteOrder::native();
    let f = encode_msg(order, Msg::Sync);
    assert_eq!(f.len(), HEADER_LEN);
    assert_eq!(parse_header(order, &f), Ok(Header { payload_len: 0, tag: 11 }));
}

#[test]
fn zero_length_payload_in_stream() {
    let order = ByteOrder::native();
    let mut d = StreamDecoder::new(order);
    let ack = encode_tagged(order, 10, b"");
    d.feed(&ack);
    // A lone header-sized buffer waits for more bytes.
    assert_eq!(d.decode(), Ok(None));
    let next = encode_tagged(order, 11, b"{\"success\":true}");
    d.feed(&next);
    assert_eq!(d.decode(), Ok(Some(Frame { tag: 10, payload: vec![] })));
    assert_eq!(d.decode(), Ok(Some(Frame { tag: 11, payload: b"{\"success\":true}".to_vec() })));
    assert_eq!(d.pending_len(), 0);
}

#[test]
fn partial_feeding_byte_by_byte() {
    let order = ByteOrder::native();
    let f = encode_tagged(order, (1 << 31) | 3, b"{\"change\":\"focus\"}");
    let mut d = StreamDecoder::new(order);
    let mut out = Vec::new();
    for b in &f {
        d.feed(&[*b]);
        if let Some(fr) = d.decode().unwrap() {
            out.push(fr);
        }
    }
    assert_eq!(out, vec![Frame { tag: (1 << 31) | 3, payload: b"{\"change\":\"focus\"}".to_vec() }]);
    assert_eq!(d.pending_len(), 0);
}

#[test]
fn partial_feeding_two_halves() {
    let order = ByteOrder::native();
    let f = encode_msg_body(order, Msg::Workspaces, "[1,2,3]");
    let (a, b) = f.split_at(f.len() / 2);
    let mut d = StreamDecoder::new(order);
    d.feed(a);
    assert_eq!(d.decode(), Ok(None));
    assert_eq!(d.pending_len(), a.len());
    d.feed(b);
    assert_eq!(d.decode(), Ok(Some(Frame { tag: 1, payload: b"[1,2,3]".to_vec() })));
    assert_eq!(d.pending_len(), 0);
}

#[test]
fn two_frames_in_one_buffer() {
    let order = ByteOrder::native();
    let mut both = encode_msg_body(order, Msg::Version, "{\"major\":4}");
    both.extend(encode_tagged(order, (1 << 31) | 7, b"{\"first\":true,\"payload\":\"\"}"));
    let mut d = StreamDecoder::new(order);
    d.feed(&both);
    assert_eq!(d.decode(), Ok(Some(Frame { tag: 7, payload: b"{\"major\":4}".to_vec() })));
    assert_eq!(
        d.decode(),
        Ok(Some(Frame { tag: (1 << 31) | 7, payload: b"{\"first\":true,\"payload\":\"\"}".to_vec() }))
    );
    assert_eq!(d.decode(), Ok(None));
    assert_eq!(d.pending_len(), 0);
}

#[test]
fn incomplete_payload_waits() {
    let order = ByteOrder::Little;
    let f = encode_msg_body(order, Msg::Config, "abcdef");
    let mut d = StreamDecoder::new(order);
    d.feed(&f[..17]);
    assert_eq!(d.decode(), Ok(None));
    assert_eq!(d.pending_len(), 17);
}
