use tunnyd::bridge::{
    forward_container_output_to_session, Bridge, BridgeAction, StreamEvent, ERROR_PREFIX,
    EXIT_NOTICE,
};

fn pushed(action: &BridgeAction) -> Option<&[u8]> {
    match action {
        BridgeAction::Data(bytes) => Some(bytes.as_slice()),
        _ => None,
    }
}

#[test]
fn exit_notice_is_the_fixed_text() {
    assert_eq!(EXIT_NOTICE, "Docker Container exited process\r\n");
    assert_eq!(ERROR_PREFIX, "Error: ");
}

#[test]
fn chunk_is_forwarded_unchanged() {
    let payload = forward_container_output_to_session(Ok(vec![0, 1, 2, 255, b'\n']));
    assert_eq!(payload, vec![0, 1, 2, 255, b'\n']);
    assert_eq!(forward_container_output_to_session(Ok(Vec::new())), Vec::<u8>::new());
}

#[test]
fn error_item_becomes_an_error_line() {
    let payload = forward_container_output_to_session(Err("stream broke".to_string()));
    assert_eq!(payload, b"Error: stream broke".to_vec());
    let unicode = forward_container_output_to_session(Err("délai".to_string()));
    assert_eq!(unicode, "Error: délai".as_bytes().to_vec());
}

#[test]
fn error_item_is_forwarded_and_the_bridge_goes_on() {
    let mut bridge = Bridge::new();
    let first = bridge.step(StreamEvent::Item(Ok(b"hello".to_vec())));
    assert_eq!(first.len(), 1);
    assert_eq!(pushed(&first[0]), Some(&b"hello"[..]));
    let failed = bridge.step(StreamEvent::Item(Err("connection reset".to_string())));
    assert_eq!(failed.len(), 1);
    let line = pushed(&failed[0]).expect("an error is pushed as data");
    let text = String::from_utf8(line.to_vec()).expect("the line is text");
    assert!(text.contains("connection reset"));
    assert!(!failed.iter().any(|a| matches!(a, BridgeAction::Close)));
    assert!(!bridge.is_finished());
    let next = bridge.step(StreamEvent::Item(Ok(b"world".to_vec())));
    assert_eq!(pushed(&next[0]), Some(&b"world"[..]));
}

#[test]
fn end_of_stream_sends_notice_once_then_closes_once() {
    let mut bridge = Bridge::new();
    let mut trace: Vec<BridgeAction> = Vec::new();
    trace.extend(bridge.step(StreamEvent::Item(Ok(b"out".to_vec()))));
    trace.extend(bridge.step(StreamEvent::End));
    assert!(bridge.is_finished());
    trace.extend(bridge.step(StreamEvent::End));
    trace.extend(bridge.step(StreamEvent::Item(Ok(b"late".to_vec()))));
    assert_eq!(trace.len(), 4);
    assert_eq!(pushed(&trace[0]), Some(&b"out"[..]));
    assert_eq!(pushed(&trace[1]), Some(EXIT_NOTICE.as_bytes()));
    assert!(matches!(trace[2], BridgeAction::Close));
    assert!(matches!(trace[3], BridgeAction::Release));
    let notices = trace.iter().filter(|a| pushed(a) == Some(EXIT_NOTICE.as_bytes())).count();
    let closes = trace.iter().filter(|a| matches!(a, BridgeAction::Close)).count();
    assert_eq!(notices, 1);
    assert_eq!(closes, 1);
}

#[test]
fn items_are_forwarded_one_by_one_in_order() {
    let mut bridge = Bridge::new();
    let chunks: Vec<Vec<u8>> = vec![b"a".to_vec(), Vec::new(), b"bc".to_vec(), b"d".to_vec()];
    let mut seen: Vec<Vec<u8>> = Vec::new();
    for chunk in &chunks {
        let todo = bridge.step(StreamEvent::Item(Ok(chunk.clone())));
        assert_eq!(todo.len(), 1);
        seen.push(pushed(&todo[0]).expect("a chunk is pushed as data").to_vec());
    }
    assert_eq!(seen, chunks);
}

#[test]
fn end_of_an_empty_stream_still_takes_farewell() {
    let mut bridge = Bridge::new();
    assert!(!bridge.is_finished());
    let todo = bridge.step(StreamEvent::End);
    assert_eq!(todo.len(), 3);
    assert_eq!(pushed(&todo[0]), Some(&b"Docker Container exited process\r\n"[..]));
    assert!(matches!(todo[1], BridgeAction::Close));
    assert!(matches!(todo[2], BridgeAction::Release));
}
