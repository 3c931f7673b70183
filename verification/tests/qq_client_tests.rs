use napcat::qq_client::{
    ConnectionState, MockQQClient, Packet, QQClient, QQClientConfig, QQClientError,
};

#[test]
fn mock_client_connect_and_login_updates_state() {
    let mut client = MockQQClient::default();
    client.connect(QQClientConfig::new("mock://localhost")).unwrap();
    let ticket = client.login("alice", "secret").unwrap();
    assert_eq!(ticket, "alice:logged-in");

    client.heartbeat(10).unwrap();
    assert!(client.receive_packet().unwrap().is_none());
}

#[test]
fn mock_client_rejects_empty_login_payload() {
    let mut client = MockQQClient::default();
    client.connect(QQClientConfig::new("mock://localhost")).unwrap();

    let result = client.login("", "");
    assert!(matches!(result, Err(QQClientError::Login(_))));
}

#[test]
fn mock_client_rejects_blank_endpoint_and_queues_packets_in_order() {
    let mut client = MockQQClient::default();
    assert_eq!(
        client.connect(QQClientConfig::new("   ")),
        Err(QQClientError::Transport(String::from("empty endpoint")))
    );
    assert_eq!(client.current_state(), ConnectionState::Disconnected);
    client.inject_packet(Packet::new("a", "1"));
    client.inject_packet(Packet::new("b", "2"));
    assert_eq!(client.receive_packet().unwrap(), Some(Packet::new("a", "1")));
    assert_eq!(client.receive_packet().unwrap(), Some(Packet::new("b", "2")));
    assert_eq!(client.receive_packet().unwrap(), None);
    client.send_packet(Packet::new("r", "p")).unwrap();
    assert_eq!(client.sent_packets().len(), 1);
    client.disconnect().unwrap();
    assert_eq!(client.current_state(), ConnectionState::Disconnected);
}

#[test]
fn client_config_builders_and_error_texts() {
    let config = QQClientConfig::new("tcp://h").with_token("t").with_timeout_ms(9);
    assert_eq!(config.endpoint, "tcp://h");
    assert_eq!(config.token, Some(String::from("t")));
    assert_eq!(config.timeout_ms, 9);
    assert_eq!(QQClientConfig::new("x").timeout_ms, 2000);
    assert_eq!(QQClientError::Login(String::from("no")).to_message_string(), "login failure: no");
    assert_eq!(QQClientError::Protocol(String::from("p")).to_message_string(), "protocol parsing failure: p");
}
