use napcat::json::json_string_of;
use napcat::message::{encode_json, text_of, EchoHandler, Message, MessageElement, MessageHandler, MessageRecipient};
use napcat::onebot::OneBotHttpBackend;

#[test]
fn text_message_has_one_text_segment() {
    let m = Message::text("id", "me", MessageRecipient::Private { user_id: String::from("you") }, "hi");
    assert_eq!(m.id, "id");
    assert_eq!(m.sender_id, "me");
    assert_eq!(m.elements, vec![MessageElement::Text { text: String::from("hi") }]);
}

#[test]
fn message_json_is_valid_and_round_trips_fields() {
    let m = Message {
        id: String::from("m\n1"),
        sender_id: String::from("s"),
        recipient: MessageRecipient::Group { group_id: String::from("g") },
        elements: vec![
            MessageElement::Text { text: String::from("a\"b") },
            MessageElement::Video { path: String::from("/v"), duration_ms: None },
            MessageElement::At { target_user: String::from("u") },
        ],
    };
    let text = encode_json(&m);
    let v: serde_json::Value = serde_json::from_str(&text).unwrap();
    assert_eq!(v["id"], "m\n1");
    assert_eq!(v["recipient"]["group"]["group_id"], "g");
    assert_eq!(v["elements"][0]["type"], "text");
    assert_eq!(v["elements"][0]["text"], "a\"b");
    assert_eq!(v["elements"][1]["type"], "video");
    assert_eq!(v["elements"][1]["duration_ms"], serde_json::Value::Null);
    assert_eq!(v["elements"][2]["target_user"], "u");
}

#[test]
fn json_strings_escape_controls() {
    assert_eq!(json_string_of("a\u{1}\t\\"), "\"a\\u0001\\t\\\\\"");
}

#[test]
fn echo_handler_echoes_text_segments() {
    let m = Message {
        id: String::from("1"),
        sender_id: String::from("s"),
        recipient: MessageRecipient::Private { user_id: String::from("u") },
        elements: vec![
            MessageElement::Text { text: String::from("ab") },
            MessageElement::Image { path: String::from("/i.png") },
            MessageElement::Text { text: String::from("cd") },
        ],
    };
    assert_eq!(EchoHandler.name(), "echo");
    assert_eq!(EchoHandler.handle(&m).unwrap().detail, text_of(&m.elements));
    assert_eq!(text_of(&m.elements), "abcd");
}

#[test]
fn plain_text_renders_each_segment() {
    let m = Message {
        id: String::from("1"),
        sender_id: String::from("s"),
        recipient: MessageRecipient::Private { user_id: String::from("u") },
        elements: vec![
            MessageElement::Text { text: String::from("hi ") },
            MessageElement::Image { path: String::from("/i.png") },
            MessageElement::At { target_user: String::from("bob") },
        ],
    };
    let plain = OneBotHttpBackend::message_to_plain_text(&m);
    assert_eq!(plain, "hi [Image:/i.png][@bob]");
}

#[test]
fn plain_text_of_an_empty_message_names_sender_and_id() {
    let m = Message {
        id: String::from("m9"),
        sender_id: String::from("ann"),
        recipient: MessageRecipient::Private { user_id: String::from("u") },
        elements: vec![],
    };
    assert_eq!(OneBotHttpBackend::message_to_plain_text(&m), "ann: m9");
}
