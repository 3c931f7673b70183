use napcat::protocol::mock_announcement;
use napcat::qq_backend::{send_outcome, session_outcome};
use napcat::message::{HandlerOutcome, MessageError};
use napcat::protocol::summarize;
use napcat::message::{EchoHandler, Message, MessageElement, MessageRecipient};
use napcat::mock_protocol::MockProtocol;
use napcat::onebot::OneBotHttpBackend;
use napcat::protocol::{
    classify_inbound_packet, forward_to_handler, inbound_decode_warning, map_qq_error,
    serialize_event, InboundPacket, ProtocolCapability, ProtocolError, ProtocolEvent,
};
use napcat::qq_backend::{inbound_step, ListenPoll, QQClientBackend, QQClientBackendConfig};
use napcat::qq_client::{ConnectionState, MockQQClient, Packet, QQClient, QQClientError};

fn incoming(id: &str, sender: &str, text: &str) -> Packet {
    let payload = format!(
        "{{\"id\":\"{id}\",\"sender_id\":\"{sender}\",\"recipient\":{{\"private\":{{\"user_id\":\"alice\"}}}},\"elements\":[{{\"type\":\"text\",\"text\":\"{text}\"}}]}}"
    );
    Packet::new("message.received", &payload)
}

/// Polls the backend until a message payload arrives, skipping
/// announcements, and returns the decoded message id.
fn next_message_id(backend: &mut QQClientBackend<MockQQClient>) -> Option<String> {
    for _ in 0..8 {
        match backend.poll_inbound() {
            ListenPoll::Inbound(InboundPacket::MessagePayload(payload)) => {
                let value: serde_json::Value = serde_json::from_str(&payload).ok()?;
                return value["id"].as_str().map(String::from);
            }
            ListenPoll::Inbound(_) => continue,
            _ => return None,
        }
    }
    None
}

#[test]
fn mock_protocol_has_caps() {
    let (proto, _rx) = MockProtocol::new();
    let mut joined = proto.capabilities();
    joined.sort_by_key(|cap| match cap {
        ProtocolCapability::Login => 0,
        ProtocolCapability::Message => 1,
        ProtocolCapability::Meta => 2,
    });

    assert_eq!(proto.name(), "mock");
    assert!(joined.contains(&ProtocolCapability::Message));
    assert!(joined.contains(&ProtocolCapability::Login));
    assert!(!proto.is_logged_in().expect("should query state"));
}

#[test]
fn mock_protocol_send_and_forward() {
    let (mut proto, mut rx) = MockProtocol::new();
    let (event_tx, _event_rx) = tokio::sync::broadcast::channel(4);
    proto.connect("ws://localhost").unwrap();
    proto.listen(&event_tx).unwrap();

    let incoming = Message::text(
        "1",
        "user",
        MessageRecipient::Private { user_id: "friend".to_string() },
        "hi",
    );
    proto.inject(incoming.clone());

    let recv = rx.try_recv().expect("no message from mock protocol");
    let handler = EchoHandler;
    let event = ProtocolEvent::MessageReceived { message: recv };
    let summary = forward_to_handler(&handler, &event).unwrap();
    assert!(summary.starts_with("echo:"));

    proto.disconnect().unwrap();
    assert!(!proto.is_logged_in().unwrap());
}

#[test]
fn message_to_plain_text_serializes_video() {
    let message = Message {
        id: String::from("video-1"),
        sender_id: String::from("alice"),
        recipient: MessageRecipient::Group { group_id: String::from("g1") },
        elements: vec![MessageElement::Video {
            path: String::from("/tmp/video.mp4"),
            duration_ms: Some(3000),
        }],
    };

    let plain = OneBotHttpBackend::message_to_plain_text(&message);
    assert!(plain.contains("[Video:/tmp/video.mp4]"));
}

#[test]
fn qq_client_backend_connects_and_handles_messages() {
    let config = QQClientBackendConfig::new("mock://localhost").with_credentials("alice", "secret");
    let mut backend = QQClientBackend::new(MockQQClient::default(), config);

    backend.connect("mock://localhost").unwrap();
    backend.listen().unwrap();
    assert!(backend.is_logged_in().unwrap());

    backend.client_mut().inject_packet(incoming("m1", "u1", "hello"));
    match next_message_id(&mut backend) {
        Some(id) => assert_eq!(id, "m1"),
        None => panic!("expected MessageReceived event"),
    }

    let message = Message::text(
        "m2",
        "alice",
        MessageRecipient::Private { user_id: String::from("bob") },
        "reply",
    );
    backend.send_message(&message).unwrap();
    assert_eq!(backend.client().sent_packets().len(), 1);
    backend.disconnect().unwrap();
    assert_eq!(backend.client().current_state(), ConnectionState::Disconnected);
}

#[test]
fn qq_client_backend_connect_without_credentials_reports_not_logged_in() {
    let mut backend =
        QQClientBackend::new(MockQQClient::default(), QQClientBackendConfig::new("mock://localhost"));

    backend.connect("mock://localhost").unwrap();
    assert!(!backend.is_logged_in().unwrap());
    backend.disconnect().unwrap();
}

#[test]
fn qq_client_backend_connect_non_mock_without_credentials_is_rejected() {
    let mut backend =
        QQClientBackend::new(MockQQClient::default(), QQClientBackendConfig::new("mock://localhost"));

    let result = backend.connect("tcp://127.0.0.1:12345");
    assert!(result.is_err());
    if let Err(ProtocolError::Transport(message)) = result {
        assert!(message.contains("qq account/password are required for non-mock endpoints"));
    } else {
        panic!("expected transport error for non-mock endpoint without credentials");
    }

    assert!(!backend.is_connected());
    assert!(!backend.is_listening());
    assert!(!backend.is_logged_in().unwrap());
    assert_eq!(backend.config().endpoint, "tcp://127.0.0.1:12345");
}

#[test]
fn qq_client_backend_connect_failure_aborts_existing_listen_task() {
    let mut backend =
        QQClientBackend::new(MockQQClient::default(), QQClientBackendConfig::new("mock://localhost"));

    backend.connect("mock://localhost").unwrap();
    backend.listen().unwrap();
    assert!(backend.is_connected());
    assert!(backend.is_listening());

    let err = backend.connect("tcp://127.0.0.1:5555");
    assert!(err.is_err());

    assert!(!backend.is_connected());
    assert!(!backend.is_listening());
    assert!(!backend.is_stop_requested());
    assert!(matches!(backend.poll_inbound(), ListenPoll::Stopped));
}

#[test]
fn qq_client_backend_reconnect_after_disconnect() {
    let config = QQClientBackendConfig::new("mock://localhost").with_credentials("alice", "secret");
    let mut backend = QQClientBackend::new(MockQQClient::default(), config);

    backend.connect("mock://localhost").unwrap();
    backend.listen().unwrap();
    assert!(backend.is_logged_in().unwrap());
    backend.client_mut().inject_packet(incoming("m1", "u1", "first"));
    match next_message_id(&mut backend) {
        Some(id) => assert_eq!(id, "m1"),
        None => panic!("expected MessageReceived event before disconnect"),
    }

    backend.disconnect().unwrap();
    assert!(!backend.is_logged_in().unwrap());

    backend.connect("mock://localhost").unwrap();
    backend.listen().unwrap();
    assert!(backend.is_logged_in().unwrap());
    backend.client_mut().inject_packet(incoming("m2", "u2", "second"));
    match next_message_id(&mut backend) {
        Some(id) => assert_eq!(id, "m2"),
        None => panic!("expected MessageReceived event after reconnect"),
    }

    backend.disconnect().unwrap();
}

#[test]
fn qq_client_backend_reconnect_with_new_listener() {
    let config = QQClientBackendConfig::new("mock://localhost").with_credentials("alice", "secret");
    let mut backend = QQClientBackend::new(MockQQClient::default(), config);

    backend.connect("mock://localhost").unwrap();
    backend.listen().unwrap();
    assert!(backend.is_logged_in().unwrap());
    backend.client_mut().inject_packet(incoming("m1", "u1", "first"));
    match next_message_id(&mut backend) {
        Some(id) => assert_eq!(id, "m1"),
        None => panic!("expected MessageReceived event in first listen session"),
    }

    backend.disconnect().unwrap();
    assert!(!backend.is_logged_in().unwrap());

    backend.connect("mock://localhost").unwrap();
    backend.listen().unwrap();
    assert!(backend.is_logged_in().unwrap());
    backend.client_mut().inject_packet(incoming("m2", "u2", "second"));
    match next_message_id(&mut backend) {
        Some(id) => assert_eq!(id, "m2"),
        None => panic!("expected MessageReceived event in second listen session"),
    }

    backend.disconnect().unwrap();
    assert_eq!(backend.client().current_state(), ConnectionState::Disconnected);
}

#[test]
fn qq_client_backend_connect_overwrites_stale_client_session() {
    let config = QQClientBackendConfig::new("mock://localhost").with_credentials("alice", "secret");
    let mut backend = QQClientBackend::new(MockQQClient::default(), config);

    backend.connect("mock://localhost").unwrap();
    assert_eq!(backend.client().current_state(), ConnectionState::LoggedIn);
    assert!(backend.is_connected());

    backend.connect("mock://localhost").unwrap();
    assert!(backend.is_connected());
    assert!(backend.is_logged_in().unwrap());
    assert_eq!(backend.client().current_state(), ConnectionState::LoggedIn);

    backend.disconnect().unwrap();
    assert_eq!(backend.client().current_state(), ConnectionState::Disconnected);
}

#[test]
fn qq_client_backend_disconnect_then_reconnect_keeps_state_consistent() {
    let config = QQClientBackendConfig::new("mock://localhost").with_credentials("alice", "secret");
    let mut backend = QQClientBackend::new(MockQQClient::default(), config);

    backend.connect("mock://localhost").unwrap();
    assert!(backend.is_connected());
    assert!(!backend.is_listening());
    assert!(backend.is_logged_in().unwrap());

    backend.listen().unwrap();
    assert!(backend.is_listening());

    backend.disconnect().unwrap();
    assert!(!backend.is_connected());
    assert!(!backend.is_listening());
    assert!(!backend.is_logged_in().unwrap());
    assert!(backend.is_stop_requested());

    backend.connect("mock://localhost").unwrap();
    assert!(backend.is_connected());
    assert!(!backend.is_listening());
    assert!(!backend.is_stop_requested());
    assert!(backend.is_logged_in().unwrap());

    backend.disconnect().unwrap();
    assert_eq!(backend.client().current_state(), ConnectionState::Disconnected);
}

#[test]
fn protocol_event_compat_roundtrip() {
    let message = Message::text(
        "m-1",
        "api",
        MessageRecipient::Group { group_id: String::from("g1") },
        "hello",
    );

    let event = ProtocolEvent::MessageReceived { message };
    let encoded = serialize_event(&event).unwrap();
    let decoded: serde_json::Value = serde_json::from_str(&encoded).unwrap();

    let payload = match decoded.get("message_received") {
        Some(body) => body["message"].clone(),
        None => panic!("unexpected protocol event"),
    };

    assert_eq!(payload["sender_id"], "api");
}

#[test]
fn protocol_forwarder_produces_handler_summary() {
    let event = ProtocolEvent::MessageReceived {
        message: Message::text(
            "x-1",
            "sender",
            MessageRecipient::Private { user_id: String::from("u2") },
            "payload",
        ),
    };

    let summary = forward_to_handler(&EchoHandler, &event).expect("handler should produce summary");
    assert!(summary.contains("echo:"));
}

#[test]
fn forwarder_summary_is_handler_name_and_text() {
    let event = ProtocolEvent::MessageReceived {
        message: Message::text("x-2", "s", MessageRecipient::Private { user_id: String::from("u") }, "hey"),
    };
    assert_eq!(forward_to_handler(&EchoHandler, &event).unwrap(), "echo: hey");
    assert_eq!(forward_to_handler(&EchoHandler, &ProtocolEvent::Disconnected).unwrap(), "noop");
}

#[test]
fn serialize_event_uses_snake_case_variants() {
    assert_eq!(serialize_event(&ProtocolEvent::Disconnected).unwrap(), "\"disconnected\"");
    assert_eq!(
        serialize_event(&ProtocolEvent::Connected { endpoint: String::from("ws://a") }).unwrap(),
        "{\"connected\":{\"endpoint\":\"ws://a\"}}"
    );
    assert_eq!(
        serialize_event(&ProtocolEvent::Warning { message: String::from("a\"b") }).unwrap(),
        "{\"warning\":{\"message\":\"a\\\"b\"}}"
    );
}

#[test]
fn inbound_packets_are_routed() {
    assert_eq!(
        classify_inbound_packet(Packet::new("client.session", "ep")),
        InboundPacket::Event(ProtocolEvent::Connected { endpoint: String::from("ep") })
    );
    assert_eq!(
        classify_inbound_packet(Packet::new("system.error", "boom")),
        InboundPacket::Event(ProtocolEvent::Warning { message: String::from("boom") })
    );
    assert_eq!(classify_inbound_packet(Packet::new("other", "x")), InboundPacket::Ignored);
    assert_eq!(
        classify_inbound_packet(Packet::new("message.received", "{}")),
        InboundPacket::MessagePayload(String::from("{}"))
    );
}

#[test]
fn protocol_error_texts() {
    let warning = inbound_decode_warning(&ProtocolError::Serialization(String::from("bad")));
    assert_eq!(
        warning,
        ProtocolEvent::Warning {
            message: String::from("failed to parse inbound packet: message serialization failure: bad")
        }
    );
    assert_eq!(
        ProtocolError::Transport(String::from("x")).to_message_string(),
        "transport failure: x"
    );
    assert_eq!(
        map_qq_error(QQClientError::Timeout(String::from("late"))),
        ProtocolError::Transport(String::from("late"))
    );
}

#[test]
fn qq_backend_sends_routed_packets_and_refuses_when_disconnected() {
    let config = QQClientBackendConfig::new("mock://localhost");
    let mut backend = QQClientBackend::new(MockQQClient::default(), config);
    let group = Message::text("g", "a", MessageRecipient::Group { group_id: String::from("g1") }, "t");
    assert_eq!(
        backend.send_message(&group),
        Err(ProtocolError::Transport(String::from("protocol is not connected")))
    );
    assert_eq!(
        backend.listen(),
        Err(ProtocolError::Transport(String::from("protocol is not connected")))
    );
    backend.connect("").unwrap();
    backend.send_message(&group).unwrap();
    assert_eq!(backend.client().sent_packets()[0].route, "message.group");
    backend.listen().unwrap();
    assert_eq!(
        backend.listen(),
        Err(ProtocolError::Transport(String::from("listen already started")))
    );
    assert!(matches!(backend.poll_inbound(), ListenPoll::Idle { sleep_ms: 150 }));
    assert_eq!(backend.finish_listen(), ProtocolEvent::Disconnected);
    assert!(!backend.is_listening());
}

#[test]
fn qq_backend_blank_endpoint_is_rejected() {
    let mut backend = QQClientBackend::new(MockQQClient::default(), QQClientBackendConfig::new(" "));
    assert_eq!(
        backend.connect(""),
        Err(ProtocolError::Transport(String::from("empty qq endpoint")))
    );
}

#[test]
fn qq_backend_login_failure_is_mapped() {
    let config = QQClientBackendConfig::new("mock://localhost").with_credentials(" ", "x");
    let mut backend = QQClientBackend::new(MockQQClient::default(), config);
    assert_eq!(
        backend.connect("mock://localhost"),
        Err(ProtocolError::Transport(String::from("login error: account and password required")))
    );
    assert!(!backend.is_connected());
    let _ = backend.client_mut().heartbeat(5);
}

#[test]
fn listener_steps_follow_what_was_received() {
    assert_eq!(inbound_step(Ok(None), 7), ListenPoll::Idle { sleep_ms: 7 });
    assert_eq!(
        inbound_step(Err(QQClientError::Transport(String::from("x"))), 7),
        ListenPoll::Failed {
            warning: ProtocolEvent::Warning { message: String::from("receive packet failed: transport failure: x") },
            sleep_ms: 7,
        }
    );
    assert_eq!(
        inbound_step(Ok(Some(Packet::new("client.connected", "ep"))), 7),
        ListenPoll::Inbound(InboundPacket::Event(ProtocolEvent::Connected { endpoint: String::from("ep") }))
    );
}

#[test]
fn session_and_send_outcomes_map_client_results() {
    assert_eq!(session_outcome(Ok(()), None), Ok(()));
    assert_eq!(session_outcome(Ok(()), Some(Ok(String::from("t")))), Ok(()));
    assert_eq!(
        session_outcome(Ok(()), Some(Err(QQClientError::Login(String::from("no"))))),
        Err(ProtocolError::Transport(String::from("login error: no")))
    );
    assert_eq!(
        session_outcome(Err(QQClientError::Protocol(String::from("p"))), None),
        Err(ProtocolError::Serialization(String::from("p")))
    );
    assert_eq!(send_outcome(Ok(())), Ok(()));
    assert_eq!(
        send_outcome(Err(QQClientError::Transport(String::from("down")))),
        Err(ProtocolError::Transport(String::from("transport failure: down")))
    );
}

#[test]
fn summaries_pass_handler_errors_on() {
    assert_eq!(
        summarize("h", Ok(HandlerOutcome { detail: String::from("d") })),
        Ok(String::from("h: d"))
    );
    assert_eq!(
        summarize("h", Err(MessageError::Handler(String::from("bad")))),
        Err(MessageError::Handler(String::from("bad")))
    );
}

#[test]
fn mock_announces_its_endpoint() {
    assert_eq!(mock_announcement(), ProtocolEvent::Connected { endpoint: String::from("mock://localhost") });
    let (proto, _rx) = MockProtocol::new();
    let (tx, mut rx) = tokio::sync::broadcast::channel(2);
    proto.listen(&tx).unwrap();
    assert_eq!(rx.try_recv().unwrap(), mock_announcement());
}
