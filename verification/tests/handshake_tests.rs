use pubsub_broker::{ClientType, ConnectionMessage};

#[test]
fn test_format() {
    assert_eq!(
        ConnectionMessage::parse(r#"{"method": "subscribe", "topic": "Topic"}"#).unwrap(),
        ConnectionMessage {
            client_type: ClientType::Subscriber,
            topic: "Topic".to_string()
        }
    );

    assert_eq!(
        ConnectionMessage::parse(r#"{"method": "publish", "topic": ""}"#).unwrap(),
        ConnectionMessage {
            client_type: ClientType::Publisher,
            topic: "".to_string()
        }
    );

    assert_eq!(
        ConnectionMessage::parse(r#" { "method" :  "publish" ,  "topic":  ""  }  "#).unwrap(),
        ConnectionMessage {
            client_type: ClientType::Publisher,
            topic: "".to_string()
        }
    );
}

#[test]
fn parse_accepts_swapped_members() {
    assert_eq!(
        ConnectionMessage::parse(r#"{"topic": "t1", "method": "publish"}"#).unwrap(),
        ConnectionMessage {
            client_type: ClientType::Publisher,
            topic: "t1".to_string()
        }
    );
}

#[test]
fn parse_accepts_compact_form() {
    assert_eq!(
        ConnectionMessage::parse(r#"{"method":"subscribe","topic":"a b c"}"#).unwrap(),
        ConnectionMessage {
            client_type: ClientType::Subscriber,
            topic: "a b c".to_string()
        }
    );
}

#[test]
fn parse_decodes_escapes() {
    let m = ConnectionMessage::parse(r#"{"method": "publish", "topic": "a\"b\\c\nd\te\/f"}"#)
        .unwrap();
    assert_eq!(m.client_type, ClientType::Publisher);
    assert_eq!(m.topic, "a\"b\\c\nd\te/f".to_string());
}

#[test]
fn parse_rejects_unknown_method() {
    assert!(ConnectionMessage::parse(r#"{"method": "push", "topic": "t"}"#).is_none());
    assert!(ConnectionMessage::parse(r#"{"method": "Publish", "topic": "t"}"#).is_none());
    assert!(ConnectionMessage::parse(r#"{"method": "", "topic": "t"}"#).is_none());
}

#[test]
fn parse_rejects_malformed_lines() {
    assert!(ConnectionMessage::parse("").is_none());
    assert!(ConnectionMessage::parse("   ").is_none());
    assert!(ConnectionMessage::parse("{}").is_none());
    assert!(ConnectionMessage::parse("not json").is_none());
    assert!(ConnectionMessage::parse(r#"{"method": "publish"}"#).is_none());
    assert!(ConnectionMessage::parse(r#"{"topic": "t"}"#).is_none());
    assert!(ConnectionMessage::parse(r#"{"method": "publish", "topic": "t""#).is_none());
    assert!(ConnectionMessage::parse(r#"{"method": "publish", "topic": "t"} x"#).is_none());
    assert!(ConnectionMessage::parse(r#"{"method": "publish", "topic": "t"}{"#).is_none());
    assert!(ConnectionMessage::parse(r#"{"method": "publish", "topic": 7}"#).is_none());
    assert!(ConnectionMessage::parse(r#"{"method": "publish", "topic": "unterminated}"#).is_none());
}

#[test]
fn parse_rejects_duplicate_or_extra_members() {
    assert!(ConnectionMessage::parse(r#"{"method": "publish", "method": "publish"}"#).is_none());
    assert!(ConnectionMessage::parse(r#"{"topic": "a", "topic": "b"}"#).is_none());
    assert!(
        ConnectionMessage::parse(r#"{"method": "publish", "topic": "t", "extra": "x"}"#).is_none()
    );
}

#[test]
fn parse_rejects_bad_escapes_and_controls() {
    assert!(ConnectionMessage::parse(r#"{"method": "publish", "topic": "a\qb"}"#).is_none());
    assert!(ConnectionMessage::parse("{\"method\": \"publish\", \"topic\": \"a\u{1}b\"}").is_none());
}
