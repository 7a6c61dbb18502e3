use i3ipc::error::ProtocolError;
use i3ipc::reply::{
    FullscreenMode, Node, NodeBorder, NodeLayout, NodeOrientation, NodeType, Rect,
};

fn node(id: usize, name: &str) -> Node {
    let r = Rect { x: 0, y: 0, width: 10, height: 10 };
    Node {
        id,
        name: Some(name.to_string()),
        num: None,
        node_type: NodeType::Con,
        layout: NodeLayout::SplitH,
        output: None,
        orientation: NodeOrientation::NoOrientation,
        border: NodeBorder::Normal,
        percent_bits: Some(0.5_f64.to_bits()),
        rect: r,
        window_rect: r,
        deco_rect: r,
        geometry: r,
        window: None,
        window_properties: None,
        window_type: None,
        current_border_width: 2,
        urgent: false,
        marks: None,
        focused: false,
        focus: vec![],
        sticky: false,
        floating: None,
        floating_nodes: vec![],
        fullscreen_mode: FullscreenMode::NoFullscreen,
        nodes: vec![],
        app_id: None,
    }
}

#[test]
fn nodes_equal_by_id() {
    assert!(node(7, "a") == node(7, "b"));
    assert!(node(7, "a") != node(8, "a"));
    let mut parent = node(1, "root");
    parent.nodes.push(node(2, "child"));
    assert!(parent == node(1, "other"));
}

#[test]
fn which_errors_end_the_connection() {
    assert!(ProtocolError::BadMagic.ends_connection());
    assert!(ProtocolError::UnknownEventKind(9).ends_connection());
    assert!(ProtocolError::UnknownCommand(13).ends_connection());
    assert!(!ProtocolError::MalformedPayload.ends_connection());
}
