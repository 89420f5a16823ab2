use ok200_core::events::{control_event_json, decode_frame_socket_id, encode_data_frame, ControlEvent};
use ok200_core::tcp::{TcpError, TcpState};

#[test]
fn test_control_event_serialization() {
    let event = ControlEvent::Accept {
        listener_id: 1,
        socket_id: 42,
        remote_address: "127.0.0.1".to_string(),
        remote_port: 54321,
    };
    let json = control_event_json(&event);
    assert!(json.contains("\"type\":\"accept\""));
    assert!(json.contains("\"listenerId\":1"));
    assert!(json.contains("\"socketId\":42"));
}

#[test]
fn test_state_id_generation() {
    let mut state = TcpState::new();
    assert_eq!(state.next_id(), 1);
    assert_eq!(state.next_id(), 2);
    assert_eq!(state.next_id(), 3);
}

#[test]
fn test_listening_event_exact() {
    let event = ControlEvent::Listening { listener_id: 3, port: 8080 };
    assert_eq!(
        control_event_json(&event),
        "{\"type\":\"listening\",\"listenerId\":3,\"port\":8080}"
    );
}

#[test]
fn test_listen_error_event_exact() {
    let event = ControlEvent::ListenError {
        listener_id: 9,
        error: "bind failed: \"addr\" in use".to_string(),
    };
    assert_eq!(
        control_event_json(&event),
        "{\"type\":\"listen_error\",\"listenerId\":9,\"error\":\"bind failed: \\\"addr\\\" in use\"}"
    );
}

#[test]
fn test_accept_event_exact() {
    let event = ControlEvent::Accept {
        listener_id: 1,
        socket_id: 2,
        remote_address: "127.0.0.1".to_string(),
        remote_port: 54321,
    };
    assert_eq!(
        control_event_json(&event),
        "{\"type\":\"accept\",\"listenerId\":1,\"socketId\":2,\"remoteAddress\":\"127.0.0.1\",\"remotePort\":54321}"
    );
}

#[test]
fn test_close_event_exact() {
    let event = ControlEvent::Close { socket_id: 7, had_error: true };
    assert_eq!(
        control_event_json(&event),
        "{\"type\":\"close\",\"socketId\":7,\"hadError\":true}"
    );
}

#[test]
fn test_error_event_escapes_control_chars() {
    let event = ControlEvent::Error { socket_id: 4294967295, message: "line\nbreak\\".to_string() };
    assert_eq!(
        control_event_json(&event),
        "{\"type\":\"error\",\"socketId\":4294967295,\"message\":\"line\\u000abreak\\\\\"}"
    );
}

#[test]
fn test_data_frame_layout() {
    let frame = encode_data_frame(0x01020304, &[0xaa, 0xbb]);
    assert_eq!(frame, vec![0x01, 0x02, 0x03, 0x04, 0xaa, 0xbb]);
    assert_eq!(decode_frame_socket_id(&frame), 0x01020304);
}

#[test]
fn test_data_frame_empty_payload() {
    let frame = encode_data_frame(5, &[]);
    assert_eq!(frame, vec![0, 0, 0, 5]);
    assert_eq!(decode_frame_socket_id(&frame), 5);
}

#[test]
fn test_listening_port_matches_address() {
    // A listener created with requested port 0: the OS picked 49152.
    let mut state = TcpState::new();
    let (listener_id, event) = state.create_listener("127.0.0.1".to_string(), 49152);
    let json = control_event_json(&event);
    assert!(json.contains("\"port\":49152"));
    let (address, port) = state.listener_address(listener_id).unwrap();
    assert_eq!(address, "127.0.0.1");
    assert_eq!(port, 49152);
    assert_ne!(port, 0);
}

#[test]
fn test_close_unknown_ids_succeed() {
    let mut state = TcpState::new();
    assert!(!state.close_socket(12345));
    assert!(!state.close_listener(12345));
    let (listener_id, _) = state.create_listener("127.0.0.1".to_string(), 80);
    assert!(state.close_listener(listener_id));
    // a second close of the same id is a successful no-op
    assert!(!state.close_listener(listener_id));
}

#[test]
fn test_send_after_close_not_found() {
    let mut state = TcpState::new();
    let (listener_id, _) = state.create_listener("127.0.0.1".to_string(), 80);
    let (socket_id, _) = state.accept_connection(listener_id, "10.0.0.1".to_string(), 50000);
    assert_eq!(state.check_send(socket_id), Ok(()));
    // the pump observes EOF: it emits close{hadError:false} and self-removes
    let events = state.socket_read(socket_id, ok200_core::tcp::ReadOutcome::Eof);
    assert_eq!(events.len(), 1);
    assert_eq!(
        control_event_json(&events[0]),
        format!("{{\"type\":\"close\",\"socketId\":{socket_id},\"hadError\":false}}")
    );
    assert_eq!(state.check_send(socket_id), Err(TcpError::NotFound));
}

#[test]
fn test_read_error_emits_error_then_close() {
    let mut state = TcpState::new();
    let (listener_id, _) = state.create_listener("127.0.0.1".to_string(), 80);
    let (socket_id, _) = state.accept_connection(listener_id, "10.0.0.1".to_string(), 50000);
    let events = state.socket_read(
        socket_id,
        ok200_core::tcp::ReadOutcome::Failed { message: "connection reset".to_string() },
    );
    assert_eq!(events.len(), 2);
    assert!(control_event_json(&events[0]).contains("\"type\":\"error\""));
    assert!(control_event_json(&events[1]).contains("\"hadError\":true"));
    assert_eq!(state.check_send(socket_id), Err(TcpError::NotFound));
}

#[test]
fn test_close_listener_keeps_sockets() {
    let mut state = TcpState::new();
    let (listener_id, _) = state.create_listener("127.0.0.1".to_string(), 80);
    let (s1, _) = state.accept_connection(listener_id, "10.0.0.1".to_string(), 50000);
    let (s2, _) = state.accept_connection(listener_id, "10.0.0.2".to_string(), 50001);
    assert!(state.close_listener(listener_id));
    // both sockets remain sendable and closable independently
    assert_eq!(state.check_send(s1), Ok(()));
    assert_eq!(state.check_send(s2), Ok(()));
    assert!(state.close_socket(s1));
    assert_eq!(state.check_send(s1), Err(TcpError::NotFound));
    assert_eq!(state.check_send(s2), Ok(()));
}

#[test]
fn test_listener_address_unknown_not_found() {
    let state = TcpState::new();
    assert_eq!(state.listener_address(1), Err(TcpError::NotFound));
}

#[test]
fn test_ids_shared_and_never_reused() {
    let mut state = TcpState::new();
    let (listener_id, _) = state.create_listener("::1".to_string(), 443);
    let (socket_id, _) = state.accept_connection(listener_id, "::1".to_string(), 50000);
    assert_eq!(listener_id, 1);
    assert_eq!(socket_id, 2);
    state.close_socket(socket_id);
    let (socket_id2, _) = state.accept_connection(listener_id, "::1".to_string(), 50001);
    assert_eq!(socket_id2, 3);
}
