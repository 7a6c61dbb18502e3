use i3ipc::decoder::Frame;
use i3ipc::error::ProtocolError;
use i3ipc::event::{Subscribe, EVENT_BIT};
use i3ipc::inbox::Inbox;
use i3ipc::msg::Msg;

#[test]
fn inbox_hands_back_replies_and_queues_events() {
    let mut inbox = Inbox::new();
    let e1 = Frame { tag: EVENT_BIT | 3, payload: b"{\"change\":\"new\"}".to_vec() };
    let e2 = Frame { tag: EVENT_BIT | 7, payload: b"{\"first\":false}".to_vec() };
    let reply = Frame { tag: 1, payload: b"[]".to_vec() };
    assert!(inbox.accept(e1).unwrap().is_none());
    assert!(inbox.accept(e2).unwrap().is_none());
    let r = inbox.accept(reply).unwrap().unwrap();
    assert_eq!(r.msg, Msg::Workspaces);
    assert_eq!(r.payload, b"[]".to_vec());
    assert_eq!(inbox.len(), 2);
    let first = inbox.take_event().unwrap();
    assert_eq!(first.kind, Subscribe::Window);
    assert_eq!(first.payload, b"{\"change\":\"new\"}".to_vec());
    let second = inbox.take_event().unwrap();
    assert_eq!(second.kind, Subscribe::Tick);
    assert!(inbox.take_event().is_none());
}

#[test]
fn inbox_rejects_unknown_tags() {
    let mut inbox = Inbox::new();
    let bad_event = Frame { tag: EVENT_BIT | 12, payload: vec![] };
    assert!(matches!(inbox.accept(bad_event), Err(ProtocolError::UnknownEventKind(12))));
    let bad_reply = Frame { tag: 100, payload: vec![] };
    assert!(matches!(inbox.accept(bad_reply), Err(ProtocolError::UnknownCommand(100))));
    assert_eq!(inbox.len(), 0);
}
