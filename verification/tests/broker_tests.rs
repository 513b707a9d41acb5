use pubsub_broker::{Client, ClientConnectionError, ReadEvent, ServerBroker};

fn handshake(method: &str, topic: &str) -> ReadEvent {
    ReadEvent::Data(
        format!("{{\"method\": \"{}\", \"topic\": \"{}\"}}\n", method, topic).into_bytes(),
    )
}

#[test]
fn connection_test() {
    let mut broker = ServerBroker::default();
    match broker.new_client(handshake("subscribe", "test_topic")) {
        Ok(Client::Subscriber(s)) => {
            assert_eq!(s.topic, "test_topic".to_string());
            assert_eq!(s.topic_id, 0);
            assert_eq!(s.sub_id, 0);
        }
        _ => panic!("expected a subscriber client"),
    }
    assert_eq!(broker.len(), 1);
}

#[test]
fn handshake_aborted_on_close() {
    let mut broker = ServerBroker::default();
    assert!(matches!(
        broker.new_client(ReadEvent::Closed),
        Err(ClientConnectionError::Aborted)
    ));
    assert!(matches!(
        broker.new_client(ReadEvent::Aborted),
        Err(ClientConnectionError::Aborted)
    ));
    assert_eq!(broker.len(), 0);
}

#[test]
fn handshake_reader_error() {
    let mut broker = ServerBroker::default();
    assert!(matches!(
        broker.new_client(ReadEvent::Failed),
        Err(ClientConnectionError::ReaderError)
    ));
    assert_eq!(broker.len(), 0);
}

#[test]
fn handshake_rejects_missing_delimiter() {
    let mut broker = ServerBroker::default();
    let bytes = b"{\"method\": \"subscribe\", \"topic\": \"t\"}".to_vec();
    match broker.new_client(ReadEvent::Data(bytes.clone())) {
        Err(ClientConnectionError::UnexpectedMessage(b)) => assert_eq!(b, bytes),
        _ => panic!("expected the raw bytes back"),
    }
    assert_eq!(broker.len(), 0);
}

#[test]
fn handshake_rejects_bad_json() {
    let mut broker = ServerBroker::default();
    match broker.new_client(ReadEvent::Data(b"hello there\n".to_vec())) {
        Err(ClientConnectionError::UnexpectedMessage(b)) => {
            assert_eq!(b, b"hello there".to_vec());
        }
        _ => panic!("expected the stripped line back"),
    }
    assert_eq!(broker.len(), 0);
}

#[test]
fn handshake_rejects_empty_read() {
    let mut broker = ServerBroker::default();
    match broker.new_client(ReadEvent::Data(Vec::new())) {
        Err(ClientConnectionError::UnexpectedMessage(b)) => assert!(b.is_empty()),
        _ => panic!("expected an unexpected-message error"),
    }
    assert_eq!(broker.len(), 0);
}

#[test]
fn handshake_accepts_multibyte_topic() {
    let mut broker = ServerBroker::default();
    let bytes = "{\"method\": \"subscribe\", \"topic\": \"t\u{f6}pic \u{2603}\"}\n"
        .as_bytes()
        .to_vec();
    match broker.new_client(ReadEvent::Data(bytes)) {
        Ok(Client::Subscriber(s)) => {
            assert_eq!(s.topic, "t\u{f6}pic \u{2603}".to_string());
        }
        _ => panic!("expected a subscriber client"),
    }
}

#[test]
fn handshake_rejects_invalid_utf8() {
    let mut broker = ServerBroker::default();
    let bytes = vec![0xff_u8, 0xfe_u8, 10_u8];
    match broker.new_client(ReadEvent::Data(bytes)) {
        Err(ClientConnectionError::UnexpectedMessage(b)) => {
            assert_eq!(b, vec![0xff_u8, 0xfe_u8]);
        }
        _ => panic!("expected an unexpected-message error"),
    }
    assert_eq!(broker.len(), 0);
}

#[test]
fn handshake_tolerates_carriage_return() {
    let mut broker = ServerBroker::default();
    let bytes = b"{\"method\": \"publish\", \"topic\": \"t\"}\r\n".to_vec();
    match broker.new_client(ReadEvent::Data(bytes)) {
        Ok(Client::Publisher(p)) => assert_eq!(p.topic, "t".to_string()),
        _ => panic!("expected a publisher client"),
    }
}

#[test]
fn topic_created_once() {
    let mut broker = ServerBroker::default();
    let first = match broker.new_client(handshake("publish", "test_topic")) {
        Ok(Client::Publisher(p)) => p,
        _ => panic!("expected a publisher client"),
    };
    let second = match broker.new_client(handshake("publish", "test_topic")) {
        Ok(Client::Publisher(p)) => p,
        _ => panic!("expected a publisher client"),
    };
    let sub = match broker.new_client(handshake("subscribe", "test_topic")) {
        Ok(Client::Subscriber(s)) => s,
        _ => panic!("expected a subscriber client"),
    };
    assert_eq!(first.topic_id, second.topic_id);
    assert_eq!(first.topic_id, sub.topic_id);
    assert_eq!(broker.len(), 1);
}

#[test]
fn empty_topic_name_is_distinct() {
    let mut broker = ServerBroker::default();
    let empty = match broker.new_client(handshake("publish", "")) {
        Ok(Client::Publisher(p)) => p,
        _ => panic!("expected a publisher client"),
    };
    let named = match broker.new_client(handshake("publish", "x")) {
        Ok(Client::Publisher(p)) => p,
        _ => panic!("expected a publisher client"),
    };
    assert_ne!(empty.topic_id, named.topic_id);
    assert_eq!(broker.len(), 2);
}
