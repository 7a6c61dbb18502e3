use i3ipc::decoder::Frame;
use i3ipc::error::ProtocolError;
use i3ipc::frame::{encode_msg, encode_msg_body, HEADER_LEN};
use i3ipc::msg::Msg;
use i3ipc::reader::{FrameReader, MAX_PAYLOAD_LEN};
use i3ipc::wire::ByteOrder;

fn read_all(order: ByteOrder, bytes: &[u8]) -> Result<Vec<Frame>, ProtocolError> {
    let mut r = FrameReader::new(order);
    let mut at = 0;
    let mut out = Vec::new();
    while at < bytes.len() {
        let n = r.wanted();
        if let Some(f) = r.supply(&bytes[at..at + n])? {
            out.push(f);
        }
        at += n;
    }
    Ok(out)
}

#[test]
fn reader_header_then_payload() {
    let order = ByteOrder::native();
    let f = encode_msg_body(order, Msg::Marks, "[\"a\"]");
    let mut r = FrameReader::new(order);
    assert_eq!(r.wanted(), HEADER_LEN);
    assert_eq!(r.supply(&f[..HEADER_LEN]), Ok(None));
    assert_eq!(r.wanted(), 5);
    assert_eq!(r.supply(&f[HEADER_LEN..]), Ok(Some(Frame { tag: 5, payload: b"[\"a\"]".to_vec() })));
    assert_eq!(r.wanted(), HEADER_LEN);
}

#[test]
fn reader_zero_length_payload() {
    let order = ByteOrder::native();
    let f = encode_msg(order, Msg::Tick);
    let mut r = FrameReader::new(order);
    assert_eq!(r.supply(&f), Ok(Some(Frame { tag: 10, payload: vec![] })));
    assert_eq!(r.wanted(), HEADER_LEN);
}

#[test]
fn reader_several_frames_in_order() {
    let order = ByteOrder::Big;
    let mut wire = encode_msg(order, Msg::Sync);
    wire.extend(encode_msg_body(order, Msg::Config, "{\"config\":\"x\"}"));
    let frames = read_all(order, &wire).unwrap();
    assert_eq!(
        frames,
        vec![
            Frame { tag: 11, payload: vec![] },
            Frame { tag: 9, payload: b"{\"config\":\"x\"}".to_vec() },
        ]
    );
}

#[test]
fn reader_bad_magic() {
    let order = ByteOrder::native();
    for i in 0..6 {
        let mut f = encode_msg_body(order, Msg::Tree, "{}");
        f[i] = b'X';
        let mut r = FrameReader::new(order);
        assert_eq!(r.supply(&f[..HEADER_LEN]), Err(ProtocolError::BadMagic));
        assert_eq!(r.wanted(), HEADER_LEN);
    }
}

#[test]
fn reader_rejects_oversized_payload() {
    let order = ByteOrder::Little;
    let mut header = b"i3-ipc".to_vec();
    header.extend((MAX_PAYLOAD_LEN + 1).to_le_bytes());
    header.extend(4u32.to_le_bytes());
    let mut r = FrameReader::new(order);
    assert_eq!(r.supply(&header), Err(ProtocolError::PayloadTooLarge(MAX_PAYLOAD_LEN + 1)));
    assert_eq!(r.wanted(), HEADER_LEN);
    assert!(ProtocolError::PayloadTooLarge(MAX_PAYLOAD_LEN + 1).ends_connection());
    // The largest accepted length is MAX_PAYLOAD_LEN itself.
    let mut header = b"i3-ipc".to_vec();
    header.extend(MAX_PAYLOAD_LEN.to_le_bytes());
    header.extend(4u32.to_le_bytes());
    let mut r = FrameReader::new(order);
    assert_eq!(r.supply(&header), Ok(None));
    assert_eq!(r.wanted(), MAX_PAYLOAD_LEN as usize);
}
