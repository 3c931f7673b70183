use napcat::message::{Message, MessageElement, MessageRecipient};
use napcat::onebot::{
    map_status_payload, map_status_reply, HttpReply, ListenFetch, OneBotBackendConfig,
    OneBotHttpBackend, StatusPayload, StatusReply,
};
use napcat::protocol::{ProtocolCapability, ProtocolError, ProtocolEvent};

fn online_reply() -> StatusReply {
    StatusReply::Payload(StatusPayload { has_data: true, data_online: Some(true), top_online: None })
}

fn connected_backend() -> OneBotHttpBackend {
    let mut backend = OneBotHttpBackend::new(
        OneBotBackendConfig::new("http://127.0.0.1:5700/").with_access_token("tok"),
    );
    backend.prepare_connect("").unwrap();
    backend.complete_connect(online_reply()).unwrap();
    backend
}

#[test]
fn config_defaults_and_builders() {
    let c = OneBotBackendConfig::new("http://x").with_listener_settings(1000, 4);
    assert_eq!(c.listen_timeout_ms, 1000);
    assert_eq!(c.listen_max_events, 4);
    assert_eq!(c.access_token, None);
    let d = OneBotBackendConfig::default();
    assert_eq!(d.base_url, "");
    assert_eq!(d.listen_timeout_ms, 600);
}

#[test]
fn connect_checks_scheme_and_endpoint() {
    let backend = OneBotHttpBackend::new(OneBotBackendConfig::new("ftp://x"));
    assert_eq!(
        backend.prepare_connect("  "),
        Err(ProtocolError::Transport(String::from("onebot endpoint must start with http:// or https://")))
    );
    let empty = OneBotHttpBackend::new(OneBotBackendConfig::default());
    assert_eq!(
        empty.prepare_connect(""),
        Err(ProtocolError::Transport(String::from("empty onebot endpoint")))
    );
    assert_eq!(
        empty.prepare_connect("http://h"),
        Err(ProtocolError::Transport(String::from("empty base URL")))
    );
    let good = OneBotHttpBackend::new(OneBotBackendConfig::new("https://h/api/"));
    assert_eq!(good.prepare_connect("").unwrap(), "https://h/api/get_status");
    assert_eq!(good.endpoint_url("//send_msg"), "https://h/api/send_msg");
}

#[test]
fn failed_status_keeps_backend_disconnected() {
    let mut backend = OneBotHttpBackend::new(OneBotBackendConfig::new("http://h"));
    assert_eq!(
        backend.complete_connect(StatusReply::Rejected(String::from("500 Internal Server Error"))),
        Err(ProtocolError::Transport(String::from("status request failed with 500 Internal Server Error")))
    );
    assert!(!backend.is_connected());
    assert_eq!(backend.login_query(), Ok(None));
}

#[test]
fn status_payloads_decide_online() {
    assert!(map_status_payload(StatusPayload { has_data: false, data_online: None, top_online: Some(true) }));
    assert!(!map_status_payload(StatusPayload { has_data: true, data_online: None, top_online: Some(true) }));
    assert_eq!(
        map_status_reply(StatusReply::Undecodable(String::from("eof"))),
        Err(ProtocolError::Serialization(String::from("eof")))
    );
    assert_eq!(map_status_reply(online_reply()), Ok(true));
}

#[test]
fn sends_build_onebot_requests() {
    let backend = connected_backend();
    assert_eq!(backend.login_query(), Ok(Some(String::from("http://127.0.0.1:5700/get_status"))));
    assert_eq!(backend.access_token(), &Some(String::from("tok")));
    let m = Message::text("1", "me", MessageRecipient::Group { group_id: String::from("g\"1") }, "hi");
    let req = backend.prepare_send(&m).unwrap();
    assert_eq!(req.path, "/send_group_msg");
    assert_eq!(req.body, "{\"group_id\":\"g\\\"1\",\"message\":\"hi\"}");
    let blank = Message::text("2", "me", MessageRecipient::Private { user_id: String::from("u") }, "  ");
    assert_eq!(
        backend.prepare_send(&blank),
        Err(ProtocolError::Transport(String::from("message content is empty")))
    );
    let only_media = Message {
        id: String::from("3"),
        sender_id: String::from("me"),
        recipient: MessageRecipient::Private { user_id: String::from("u") },
        elements: vec![MessageElement::File { path: String::from("/f") }],
    };
    assert_eq!(backend.prepare_send(&only_media).unwrap().body, "{\"user_id\":\"u\",\"message\":\"[File:/f]\"}");
    assert_eq!(OneBotHttpBackend::map_send_reply(HttpReply::Answered { success: true, status: String::from("200 OK") }), Ok(()));
    assert_eq!(
        OneBotHttpBackend::map_send_reply(HttpReply::Answered { success: false, status: String::from("403 Forbidden") }),
        Err(ProtocolError::Transport(String::from("send request rejected: 403 Forbidden")))
    );
}

#[test]
fn listener_lifecycle_and_rounds() {
    let mut backend = connected_backend();
    assert_eq!(backend.name(), "onebot-http");
    assert!(backend.capabilities().contains(&ProtocolCapability::Meta));
    assert_eq!(
        backend.begin_listen(),
        Ok(ProtocolEvent::Connected { endpoint: String::from("http://127.0.0.1:5700/") })
    );
    assert_eq!(
        backend.begin_listen(),
        Err(ProtocolError::Transport(String::from("listen already started")))
    );
    assert_eq!(backend.listen_query(), (String::from("600"), String::from("8")));
    assert!(backend.should_keep_listening());

    let round = OneBotHttpBackend::listen_round(ListenFetch::Items(vec![
        Ok(ProtocolEvent::Disconnected),
        Err(ProtocolError::Serialization(String::from("bad"))),
    ]));
    assert_eq!(round.sleep_ms, 0);
    assert_eq!(round.deliveries.len(), 2);
    assert!(round.deliveries[0].required);
    assert_eq!(
        round.deliveries[1].event,
        ProtocolEvent::Warning { message: String::from("failed to decode protocol event: message serialization failure: bad") }
    );
    assert_eq!(OneBotHttpBackend::listen_round(ListenFetch::Items(vec![])).sleep_ms, 20);
    let failed = OneBotHttpBackend::listen_round(ListenFetch::Failed(String::from("refused")));
    assert_eq!(failed.sleep_ms, 500);
    assert_eq!(failed.deliveries[0].event, ProtocolEvent::Warning { message: String::from("message/listen failed: refused") });
    assert_eq!(OneBotHttpBackend::listen_round(ListenFetch::Rejected(String::from("404"))).sleep_ms, 200);

    backend.disconnect().unwrap();
    assert!(!backend.should_keep_listening());
    assert_eq!(backend.finish_listen(), ProtocolEvent::Disconnected);
    assert!(!backend.is_listening());
    assert_eq!(
        backend.prepare_send(&Message::text("x", "y", MessageRecipient::Private { user_id: String::from("z") }, "t")),
        Err(ProtocolError::Transport(String::from("protocol is not connected")))
    );
}
