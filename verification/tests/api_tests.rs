use napcat::api::sent_message_event;
use napcat::api::{
    compat_group_request, compat_private_request, compatibility_default_friends, delete_msg,
    dispatch_result, friend_payload_from_users, get_friend_list, get_group_info, get_login_info,
    health_check, list_groups, list_users, login_status, message_id_from_text, ok_envelope,
    plugin_api_error, plugin_kind_items, protocol_listen_error, protocol_send_error, send_response,
    validate_message, ApiError, ApiState, CompatSendRequest, DeleteMsgRequest, DispatchOutcome,
    GetGroupInfoRequest, GroupInfo, MessageType, PluginListResponse, PluginStatusResponse,
    SendGroupRequest, SendPrivateRequest, UserInfo,
};
use napcat::api_events::{
    event_type_accepted, onebot_event_payload, onebot_event_payload_at, onebot_event_post_type,
    parse_event_types, protocol_plugin_event, ws_event_text, ListenBatch, ListenQuery,
};
use napcat::message::{Message, MessageRecipient};
use napcat::plugin::{PluginBackendKind, PluginDefinition, PluginError, PluginEvent, PluginMetadata, PluginSource};
use napcat::plugin_registry::PluginRegistry;
use napcat::protocol::{ProtocolError, ProtocolEvent};

fn query() -> ListenQuery {
    ListenQuery {
        timeout_ms: None,
        timeout: None,
        max_events: None,
        limit: None,
        type_filter: None,
        post_type: None,
    }
}

fn private_message(id: &str, user: &str, text: &str) -> Message {
    Message::text(id, "sender", MessageRecipient::Private { user_id: user.to_string() }, text)
}

/// Runs one long-poll batch over the events already queued.
fn collect(q: &ListenQuery, queued: Vec<ProtocolEvent>) -> Vec<String> {
    let mut batch = ListenBatch::new(parse_event_types(q), q.max_events_value());
    let mut queued = queued.into_iter();
    while batch.wants_more() {
        match queued.next() {
            Some(event) => {
                let payload = onebot_event_payload(&event);
                batch.record(&event, payload);
            }
            None => batch.close(),
        }
    }
    batch.into_records()
}

#[test]
fn api_status_route_returns_default_state() {
    let state = ApiState::new();
    let response = login_status(state.is_runtime_running());
    assert!(!response.data.online);
    assert_eq!(response.status, "failed");
    assert_eq!(response.retcode, -1);
}

#[test]
fn api_status_route_reports_runtime_running_state() {
    let mut state = ApiState::new();
    state.set_runtime_running(true);
    let envelope = login_status(state.is_runtime_running());

    assert_eq!(envelope.status, "ok");
    assert!(envelope.data.online);
    assert_eq!(envelope.data.message, "runtime running");
}

#[test]
fn api_send_route_emits_event() {
    let message = Message::text("m", "sender", MessageRecipient::Private { user_id: "u".to_string() }, "hi");
    assert!(validate_message(&message).is_ok());
    assert_eq!(dispatch_result(DispatchOutcome::Sent), Ok(()));
    let response = send_response(message.id.clone());
    assert_eq!(response.status, "ok");
    assert!(response.data.accepted);
    assert_eq!(response.data.message_id, "m");
}

#[test]
fn api_send_private_compat_works() {
    let request = compat_private_request(SendPrivateRequest {
        user_id: "u1".to_string(),
        message: "hello".to_string(),
    });
    let message = request.into_napcat_message().expect("request should pass");
    assert_eq!(message.recipient, MessageRecipient::Private { user_id: "u1".to_string() });
    assert!(validate_message(&message).is_ok());
}

#[test]
fn api_get_events_route_is_alias_of_message_listen() {
    let mut q = query();
    q.timeout_ms = Some(1);
    q.max_events = Some(1);
    assert_eq!(q.timeout_value(), 1);
    let envelope = ok_envelope(collect(&q, vec![]));
    assert_eq!(envelope.status, "ok");
    assert!(envelope.data.is_empty());
}

#[test]
fn api_get_events_route_filters_by_type() {
    let mut q = query();
    q.type_filter = Some(String::from("message"));
    q.max_events = Some(8);
    q.timeout_ms = Some(50);
    let events = vec![
        ProtocolEvent::Connected { endpoint: String::from("mock://endpoint") },
        ProtocolEvent::MessageReceived { message: private_message("msg-filter", "u-1", "hello") },
    ];
    let data = collect(&q, events);
    assert_eq!(data.len(), 1);
    let event: serde_json::Value = serde_json::from_str(&data[0]).expect("event json parse");
    assert_eq!(event["post_type"], "message");
}

#[test]
fn api_get_group_list_route_is_alias_of_groups() {
    let state = ApiState::new();
    let envelope = list_groups(&state);
    assert_eq!(envelope.status, "ok");
    assert!(!envelope.data.is_empty());
}

#[test]
fn api_get_events_route_supports_compatibility_limit_alias() {
    let mut q = query();
    q.limit = Some(1);
    q.timeout_ms = Some(50);
    let events = vec![
        ProtocolEvent::MessageReceived { message: private_message("msg-limit-1", "u-1", "hello") },
        ProtocolEvent::MessageReceived { message: private_message("msg-limit-2", "u-2", "world") },
    ];
    let data = collect(&q, events);
    assert_eq!(data.len(), 1);
}

#[test]
fn api_get_friend_list_exposes_compatibility_remark_field() {
    let state = ApiState::new();
    let envelope = get_friend_list(&state);
    let first = &envelope.data[0];
    assert_eq!(first.user_id, "u1");
    assert_eq!(first.remark, "");
}

#[test]
fn api_plugin_load_list_and_unload_works() {
    let mut registry = PluginRegistry::new();
    let definition = PluginDefinition {
        metadata: PluginMetadata::new("test-plugin", "0.1.0"),
        source: PluginSource::Rust {
            executable: String::from("/bin/sh"),
            args: vec![String::from("-c"), String::from("cat >/dev/null")],
            timeout_ms: 200,
        },
        enabled: true,
    };
    let backend = registry.prepare_load(definition).expect("load request should pass");
    registry.insert(backend);

    let list = ok_envelope(PluginListResponse { plugins: registry.list() });
    assert_eq!(list.data.plugins, vec![String::from("test-plugin")]);

    let metadata = registry.metadata("test-plugin").expect("metadata request should pass");
    assert_eq!(metadata.version, "0.1.0");

    let status = ok_envelope(PluginStatusResponse { running: false, plugin_count: registry.len() });
    assert_eq!(status.data.plugin_count, 1);

    assert!(registry.remove("test-plugin").is_ok());
    assert_eq!(registry.len(), 0);
}

#[test]
fn api_onebot_event_payload_from_message_event() {
    let message = Message::text(
        "msg-1",
        "sender-1",
        MessageRecipient::Group { group_id: String::from("group-1") },
        "hello",
    );
    let payload = onebot_event_payload(&ProtocolEvent::MessageReceived { message }).expect("event payload");
    let parsed: serde_json::Value = serde_json::from_str(&payload).expect("json payload");

    assert_eq!(parsed["post_type"], "message");
    assert_eq!(parsed["message_type"], "group");
    assert_eq!(parsed["message_id"], "msg-1");
    assert_eq!(parsed["group_id"], "group-1");
    assert_eq!(parsed["user_id"], "sender-1");
}

#[test]
fn api_group_and_user_route_works() {
    let state = ApiState::new();
    assert_eq!(list_groups(&state).status, "ok");
    assert_eq!(list_users(&state).status, "ok");
}

#[test]
fn api_state_group_and_user_cache_roundtrip() {
    let mut state = ApiState::new();
    assert!(state.groups().is_empty());
    assert!(state.users().is_empty());

    let groups = vec![GroupInfo { group_id: String::from("g1"), group_name: String::from("dev") }];
    let users = vec![UserInfo { user_id: String::from("u1"), nickname: String::from("alice") }];

    state.set_groups(groups.clone());
    state.set_users(users.clone());
    assert_eq!(state.groups(), groups);
    assert_eq!(state.users(), users);

    state.set_groups(vec![]);
    state.set_users(vec![]);
    assert!(state.groups().is_empty());
    assert!(state.users().is_empty());
}

#[test]
fn api_compat_request_roundtrip_to_message_payload() {
    let request = CompatSendRequest {
        message_type: MessageType::Private,
        user_id: Some(String::from("u1")),
        group_id: None,
        message: String::from("hello"),
    };

    let payload = Message::text(
        "msg",
        "api",
        request
            .user_id
            .as_deref()
            .map(|id| MessageRecipient::Private { user_id: id.to_string() })
            .expect("private user id should exist"),
        &request.message,
    );

    assert_eq!(payload.sender_id, "api");
    assert_eq!(payload.id, "msg");
}

#[test]
fn compat_request_builds_text_message_with_length_id() {
    let message = compat_group_request(SendGroupRequest {
        group_id: String::from("g7"),
        message: String::from("héllo"),
    })
    .into_napcat_message()
    .unwrap();
    assert_eq!(message.id, "api-6");
    assert_eq!(message.sender_id, "api");
    assert_eq!(message.recipient, MessageRecipient::Group { group_id: String::from("g7") });
    assert_eq!(message_id_from_text(""), "api-0");
}

#[test]
fn compat_request_without_target_is_invalid() {
    let request = CompatSendRequest {
        message_type: MessageType::Group,
        user_id: Some(String::from("u1")),
        group_id: None,
        message: String::from("x"),
    };
    assert_eq!(
        request.into_napcat_message(),
        Err(ApiError::InvalidRequest(String::from("group_id is required for group messages")))
    );
    let request = CompatSendRequest {
        message_type: MessageType::Private,
        user_id: Some(String::new()),
        group_id: None,
        message: String::from("x"),
    };
    assert_eq!(
        request.into_napcat_message(),
        Err(ApiError::InvalidRequest(String::from("user_id is required for private messages")))
    );
}

#[test]
fn validate_message_rejects_empty_targets() {
    let m = Message::text("m", "s", MessageRecipient::Group { group_id: String::new() }, "t");
    assert_eq!(
        validate_message(&m),
        Err(ApiError::InvalidRequest(String::from("group_id cannot be empty")))
    );
    let m = Message::text("m", "s", MessageRecipient::Private { user_id: String::new() }, "t");
    assert_eq!(
        validate_message(&m),
        Err(ApiError::InvalidRequest(String::from("private user_id cannot be empty")))
    );
}

#[test]
fn api_error_statuses_and_texts() {
    let e = ApiError::InvalidRequest(String::from("bad"));
    assert_eq!(e.status_code(), 400);
    assert_eq!(e.to_message_string(), "invalid request: bad");
    let env = e.envelope();
    assert_eq!(env.status, "failed");
    assert_eq!(env.retcode, -1);
    assert_eq!(env.message, Some(String::from("bad")));
    assert_eq!(ApiError::EventDispatch(String::from("x")).status_code(), 503);
    assert_eq!(ApiError::ProtocolSend(String::from("x")).status_code(), 502);
    assert_eq!(
        protocol_send_error(&ProtocolError::Transport(String::from("down"))),
        ApiError::ProtocolSend(String::from("protocol send failed: transport failure: down"))
    );
    assert_eq!(
        plugin_api_error(&PluginError::NotFound { name: String::from("p") }).to_message_string(),
        "protocol send failed: plugin not found: p"
    );
    assert_eq!(
        dispatch_result(DispatchOutcome::Closed(String::from("gone"))),
        Err(ApiError::EventDispatch(String::from("dispatch channel closed: gone")))
    );
    assert_eq!(
        dispatch_result(DispatchOutcome::TimedOut),
        Err(ApiError::EventDispatch(String::from("event dispatch timed out")))
    );
    assert_eq!(
        protocol_listen_error(&ProtocolError::Serialization(String::from("bad"))),
        ProtocolError::Transport(String::from(
            "protocol listen failed: message serialization failure: bad"
        ))
    );
}

#[test]
fn health_and_login_info_answers() {
    let h = health_check();
    assert_eq!(h.message, Some(String::from("napcat api ready")));
    let off = get_login_info(false);
    assert_eq!(off.status, "failed");
    assert_eq!(off.retcode, -1);
    assert_eq!(off.data.user_id, "offline");
    let on = get_login_info(true);
    assert_eq!(on.data.user_id, "napcat-bot");
    assert_eq!(on.data.nickname, "NapCatRS");
    assert_eq!(login_status(false).data.message, "runtime not started");
    assert_eq!(login_status(false).retcode, -1);
}

#[test]
fn friends_follow_users() {
    let users = vec![UserInfo { user_id: String::from("u9"), nickname: String::from("zed") }];
    let friends = friend_payload_from_users(users);
    assert_eq!(friends.len(), 1);
    assert_eq!(friends[0].user_id, "u9");
    assert_eq!(friends[0].nickname, "zed");
    assert_eq!(friends[0].remark, "");
    assert_eq!(compatibility_default_friends()[1].user_id, "u2");
}

#[test]
fn delete_msg_and_group_info() {
    let (event, deleted) = delete_msg(DeleteMsgRequest { message_id: String::from("m1") }).unwrap();
    assert_eq!(deleted.data.message_id, "m1");
    assert_eq!(event, ProtocolEvent::Warning { message: String::from("delete message requested: m1") });
    assert!(delete_msg(DeleteMsgRequest { message_id: String::from("  ") }).is_err());

    let state = ApiState::new();
    let found = get_group_info(&state, GetGroupInfoRequest { group_id: String::from("g2"), no_cache: false }).unwrap();
    assert_eq!(found.data.group_name, "design");
    assert!(get_group_info(&state, GetGroupInfoRequest { group_id: String::from("g9"), no_cache: false }).is_err());
}

#[test]
fn parse_event_types_trims_lowercases_and_drops_empty() {
    let mut q = query();
    q.post_type = Some(String::from(" Message , ,META_EVENT,message"));
    let mut types = parse_event_types(&q).unwrap();
    types.sort();
    assert_eq!(types, vec![String::from("message"), String::from("meta_event")]);

    q.type_filter = Some(String::from(" , "));
    assert_eq!(parse_event_types(&q), None);
    assert_eq!(parse_event_types(&query()), None);
}

#[test]
fn filters_and_post_types() {
    let warning = ProtocolEvent::Warning { message: String::from("w") };
    assert_eq!(onebot_event_post_type(&warning), "meta_event");
    let types = Some(vec![String::from("message")]);
    assert!(!event_type_accepted(&types, &warning));
    assert!(event_type_accepted(&None, &warning));
    assert_eq!(ws_event_text(&types, &warning, Ok(String::from("p"))), None);
    assert_eq!(ws_event_text(&None, &warning, Ok(String::from("p"))), Some(String::from("p")));
    assert_eq!(
        ws_event_text(&None, &warning, Err(ProtocolError::Transport(String::from("clock")))),
        None
    );
}

#[test]
fn listen_query_defaults_and_clamps() {
    let q = query();
    assert_eq!(q.timeout_value(), 200);
    assert_eq!(q.max_events_value(), 8);
    let mut q = query();
    q.timeout = Some(2);
    q.max_events = Some(0);
    assert_eq!(q.timeout_value(), 2000);
    assert_eq!(q.max_events_value(), 1);
    q.timeout = Some(u64::MAX);
    q.limit = Some(100);
    q.max_events = None;
    assert_eq!(q.timeout_value(), u64::MAX);
    assert_eq!(q.max_events_value(), 32);
}

#[test]
fn listen_batch_never_exceeds_its_limit() {
    let mut batch = ListenBatch::new(None, 2);
    let event = ProtocolEvent::Disconnected;
    while batch.wants_more() {
        batch.record(&event, Ok(String::from("x")));
    }
    assert_eq!(batch.into_records().len(), 2);
}

#[test]
fn onebot_payload_has_exact_layout() {
    assert_eq!(
        onebot_event_payload_at(&ProtocolEvent::Disconnected, 7),
        "{\"meta_event_type\":\"lifecycle\",\"post_type\":\"meta_event\",\"self_id\":\"napcat-bot\",\"status\":\"close\",\"sub_type\":\"disconnected\",\"time\":7}"
    );
    let m = private_message("i", "u\"1", "hi");
    let text = onebot_event_payload_at(&ProtocolEvent::MessageReceived { message: m }, 1);
    let v: serde_json::Value = serde_json::from_str(&text).unwrap();
    assert_eq!(v["group_id"], serde_json::Value::Null);
    assert_eq!(v["message_type"], "private");
    assert_eq!(v["sub_type"], "friend");
    assert_eq!(v["target_id"], "u\"1");
    assert_eq!(v["time"], 1);
}

#[test]
fn protocol_messages_are_relayed_to_plugins() {
    let m = private_message("r1", "u1", "hi");
    match protocol_plugin_event(&ProtocolEvent::MessageReceived { message: m }) {
        Some(PluginEvent::Message { payload, source }) => {
            let v: serde_json::Value = serde_json::from_str(&payload).unwrap();
            assert_eq!(v["id"], "r1");
            assert_eq!(source, Some(String::from("protocol")));
        }
        other => panic!("unexpected relay {other:?}"),
    }
    assert_eq!(protocol_plugin_event(&ProtocolEvent::Disconnected), None);
}

#[test]
fn plugin_kind_items_keep_order() {
    let items = plugin_kind_items(&vec![
        (String::from("a"), PluginBackendKind::Http),
        (String::from("b"), PluginBackendKind::Rust),
    ]);
    assert_eq!(items.len(), 2);
    assert_eq!(items[0].name, "a");
    assert_eq!(items[1].kind, PluginBackendKind::Rust);
}

#[test]
fn sent_messages_become_received_events() {
    let m = private_message("s1", "u", "hi");
    assert_eq!(
        sent_message_event(Ok(()), m.clone()),
        Ok(ProtocolEvent::MessageReceived { message: m.clone() })
    );
    assert_eq!(
        sent_message_event(Err(ProtocolError::Transport(String::from("down"))), m),
        Err(ApiError::ProtocolSend(String::from("protocol send failed: transport failure: down")))
    );
}
