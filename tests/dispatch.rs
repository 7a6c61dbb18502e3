use i3ipc::decoder::StreamDecoder;
use i3ipc::dispatch::{reply_msg, route, subscribe_frame, subscribe_payload, MsgResponse, Route};
use i3ipc::inbox::Inbox;
use i3ipc::error::ProtocolError;
use i3ipc::event::{event_kind, Event, Subscribe, TickData, EVENT_BIT};
use i3ipc::frame::{encode_tagged, parse_header, HEADER_LEN};
use i3ipc::msg::Msg;
use i3ipc::reply::{PropertyValue, Success, WindowProperties, WindowProperty};
use i3ipc::wire::ByteOrder;

fn all_kinds() -> Vec<Subscribe> {
    vec![
        Subscribe::Workspace,
        Subscribe::Output,
        Subscribe::Mode,
        Subscribe::Window,
        Subscribe::BarConfigUpdate,
        Subscribe::Binding,
        Subscribe::Shutdown,
        Subscribe::Tick,
    ]
}

#[test]
fn event_bit_masking() {
    for (k, s) in all_kinds().into_iter().enumerate() {
        assert_eq!(event_kind(EVENT_BIT | k as u32), Ok(s));
        assert_eq!(route(EVENT_BIT | k as u32), Ok(Route::Event(s)));
        assert_eq!(s.code(), k as u32);
        assert_eq!(Subscribe::from_code(k as u32), Some(s));
    }
    assert_eq!(event_kind(EVENT_BIT | 8), Err(ProtocolError::UnknownEventKind(8)));
    assert_eq!(route(EVENT_BIT | 8), Err(ProtocolError::UnknownEventKind(8)));
    assert_eq!(route(u32::MAX), Err(ProtocolError::UnknownEventKind(0x7fff_ffff)));
}

#[test]
fn reply_tags_route_to_commands() {
    assert_eq!(route(0), Ok(Route::Reply(Msg::RunCommand)));
    assert_eq!(route(12), Ok(Route::Reply(Msg::BindingState)));
    assert_eq!(route(13), Err(ProtocolError::UnknownCommand(13)));
    assert_eq!(reply_msg(4), Ok(Msg::Tree));
    assert_eq!(reply_msg(99), Err(ProtocolError::UnknownCommand(99)));
}

#[test]
fn msg_response_pairs_body_with_command() {
    let r = MsgResponse::new(9, "cfg").unwrap();
    assert_eq!(r.msg_type, Msg::Config);
    assert_eq!(r.body, "cfg");
    assert!(matches!(MsgResponse::new(40, ()), Err(ProtocolError::UnknownCommand(40))));
}

#[test]
fn subscribe_names_as_json() {
    assert_eq!(subscribe_payload(&[Subscribe::Window]), Ok("[\"window\"]".to_string()));
    assert_eq!(subscribe_payload(&[]), Ok("[]".to_string()));
    assert_eq!(
        subscribe_payload(&all_kinds()),
        Ok("[\"workspace\",\"output\",\"mode\",\"window\",\"barconfig_update\",\"binding\",\"shutdown\",\"tick\"]"
            .to_string())
    );
    assert_eq!(Subscribe::BarConfigUpdate.name(), "barconfig_update");
}

#[test]
fn subscribe_frame_two_kinds_exact_bytes() {
    let f = subscribe_frame(ByteOrder::Little, &[Subscribe::Window, Subscribe::BarConfigUpdate]).unwrap();
    let mut expected = b"i3-ipc".to_vec();
    expected.extend(29u32.to_le_bytes());
    expected.extend(2u32.to_le_bytes());
    expected.extend(b"[\"window\",\"barconfig_update\"]");
    assert_eq!(f, expected);
}

#[test]
fn event_kind_of_each_variant() {
    let e = Event::Tick(TickData { first: true, payload: String::new() });
    assert_eq!(e.kind(), Subscribe::Tick);
}

fn json_field<'a>(v: &'a serde_json::Value, key: &str) -> &'a serde_json::Value {
    v.get(key).unwrap()
}

#[test]
fn subscribe_then_event_end_to_end() {
    let order = ByteOrder::native();
    // Client side: the subscription request.
    let request = subscribe_frame(order, &[Subscribe::Window]).unwrap();
    // Peer side: it decodes the request.
    let mut peer = StreamDecoder::new(order);
    peer.feed(&request);
    let got = peer.decode().unwrap().unwrap();
    assert_eq!(got.tag, 2);
    assert_eq!(got.payload, b"[\"window\"]".to_vec());
    // Peer replies with success, then sends a window event.
    let mut wire = encode_tagged(order, 2, b"{\"success\":true}");
    wire.extend(encode_tagged(order, EVENT_BIT | 3, b"{\"change\":\"focus\",\"container\":{}}"));
    let mut client = StreamDecoder::new(order);
    let mut inbox = Inbox::new();
    client.feed(&wire);
    let reply = inbox.accept(client.decode().unwrap().unwrap()).unwrap().unwrap();
    assert_eq!(reply.msg, Msg::Subscribe);
    let body: serde_json::Value = serde_json::from_slice(&reply.payload).unwrap();
    let success = Success {
        success: json_field(&body, "success").as_bool().unwrap(),
        error: body.get("error").and_then(|e| e.as_str()).map(|s| s.to_string()),
    };
    assert_eq!(success, Success { success: true, error: None });
    assert!(inbox.accept(client.decode().unwrap().unwrap()).unwrap().is_none());
    let event = inbox.take_event().unwrap();
    assert_eq!(event.kind, Subscribe::Window);
    let body: serde_json::Value = serde_json::from_slice(&event.payload).unwrap();
    assert_eq!(json_field(&body, "change").as_str(), Some("focus"));
    assert_eq!(client.decode(), Ok(None));
}

#[test]
fn unknown_tags_are_rejected_when_routed() {
    let order = ByteOrder::native();
    let f = encode_tagged(order, EVENT_BIT | 42, b"{}");
    assert_eq!(parse_header(order, &f).unwrap().tag, EVENT_BIT | 42);
    assert_eq!(f.len(), HEADER_LEN + 2);
    assert_eq!(route(EVENT_BIT | 42), Err(ProtocolError::UnknownEventKind(42)));
}

#[test]
fn window_properties_from_entries() {
    let w = WindowProperties::from_entries(vec![
        (WindowProperty::Title, Some(PropertyValue::Text("old".to_string()))),
        (WindowProperty::Class, Some(PropertyValue::Text("URxvt".to_string()))),
        (WindowProperty::Instance, None),
        (WindowProperty::TransientFor, Some(PropertyValue::Number(77))),
        (WindowProperty::Title, Some(PropertyValue::Text("new".to_string()))),
    ])
    .unwrap();
    assert_eq!(
        w,
        WindowProperties {
            title: Some("new".to_string()),
            instance: None,
            class: Some("URxvt".to_string()),
            window_role: None,
            transient_for: Some(77),
            window_type: None,
        }
    );
}

#[test]
fn window_properties_wrong_kind() {
    let r = WindowProperties::from_entries(vec![(WindowProperty::TransientFor, Some(PropertyValue::Text("x".to_string())))]);
    assert_eq!(r, Err(ProtocolError::MalformedPayload));
    let r = WindowProperties::from_entries(vec![(WindowProperty::WindowRole, Some(PropertyValue::Number(1)))]);
    assert_eq!(r, Err(ProtocolError::MalformedPayload));
    let empty = WindowProperties::from_entries(vec![]).unwrap();
    assert_eq!(empty.title, None);
    assert_eq!(empty.transient_for, None);
}
