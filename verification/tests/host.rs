use ok200_core::host::{
    classify_action, decode_message_frame, encode_message_frame, host_response_json,
    launch_response_json, FrameParse, HostAction, MAX_MESSAGE_LEN,
};

fn ping_value() -> serde_json::Value {
    let mut m = serde_json::Map::new();
    m.insert("action".to_string(), serde_json::Value::String("ping".to_string()));
    serde_json::Value::Object(m)
}

#[test]
fn test_roundtrip_message() {
    let msg = ping_value();
    let payload = serde_json::to_vec(&msg).unwrap();
    let buf = encode_message_frame(&payload);
    match decode_message_frame(&buf) {
        FrameParse::Payload(p) => {
            let read_back: serde_json::Value = serde_json::from_slice(&p).unwrap();
            assert_eq!(msg, read_back);
        }
        other => panic!("expected a payload, got {other:?}"),
    }
}

#[test]
fn test_eof_returns_none() {
    let result = decode_message_frame(&[]);
    assert!(matches!(result, FrameParse::End));
}

#[test]
fn test_message_too_large() {
    let len_bytes = (2_000_000u32).to_le_bytes();
    let result = decode_message_frame(&len_bytes);
    assert!(matches!(result, FrameParse::TooLarge));
}

#[test]
fn test_partial_header_is_end() {
    let result = decode_message_frame(&[1, 0]);
    assert!(matches!(result, FrameParse::End));
}

#[test]
fn test_truncated_payload() {
    // header announces 5 bytes, only 2 follow
    let result = decode_message_frame(&[5, 0, 0, 0, b'a', b'b']);
    assert!(matches!(result, FrameParse::Truncated));
}

#[test]
fn test_largest_message_accepted() {
    let payload = vec![b'x'; MAX_MESSAGE_LEN];
    let buf = encode_message_frame(&payload);
    match decode_message_frame(&buf) {
        FrameParse::Payload(p) => assert_eq!(p, payload),
        other => panic!("expected a payload, got {other:?}"),
    }
}

#[test]
fn test_frame_layout_exact() {
    let buf = encode_message_frame(b"hi");
    assert_eq!(buf, vec![2, 0, 0, 0, b'h', b'i']);
}

#[test]
fn test_handle_handshake() {
    assert_eq!(classify_action("handshake"), HostAction::Handshake);
    let response: serde_json::Value =
        serde_json::from_str(&host_response_json("handshake", "0.1.0")).unwrap();
    assert_eq!(response["action"], "handshake");
    assert_eq!(response["name"], "ok200-host");
    assert!(response["version"].as_str().is_some());
}

#[test]
fn test_handle_ping() {
    assert_eq!(classify_action("ping"), HostAction::Ping);
    let response: serde_json::Value =
        serde_json::from_str(&host_response_json("ping", "0.1.0")).unwrap();
    assert_eq!(response["action"], "pong");
}

#[test]
fn test_handle_unknown_action() {
    assert_eq!(classify_action("unknown"), HostAction::Unknown);
    let response: serde_json::Value =
        serde_json::from_str(&host_response_json("unknown", "0.1.0")).unwrap();
    assert!(response.get("error").is_some());
}

#[test]
fn test_handle_launch_returns_structured_response() {
    assert_eq!(classify_action("launch"), HostAction::Launch);
    // when the app is not installed, the launch fails and ok is false
    let response: serde_json::Value =
        serde_json::from_str(&launch_response_json(Some("could not find 200 OK app"))).unwrap();
    assert_eq!(response["action"], "launch");
    assert!(response.get("ok").is_some());
    assert_eq!(response["ok"], false);
}

#[test]
fn test_handle_launch_success() {
    let response: serde_json::Value =
        serde_json::from_str(&launch_response_json(None)).unwrap();
    assert_eq!(response["action"], "launch");
    assert_eq!(response["ok"], true);
}

#[test]
fn test_unknown_action_message_exact() {
    assert_eq!(
        host_response_json("bogus", "0.1.0"),
        "{\"error\":\"unknown action: bogus\"}"
    );
}
