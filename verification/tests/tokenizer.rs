use vocabtool::error::TokenizeError;
use vocabtool::tokenize::{advance, process, Wire, WireAction, WireEvent, TOKENIZER_HOST, TOKENIZER_PORT};

fn exchange(text: &str, events: Vec<WireEvent>) -> (Vec<WireAction>, Wire) {
    let (mut wire, first) = process(text, "zh_CN");
    let mut actions = vec![first];
    for event in events {
        let (next, action) = advance(wire, event);
        wire = next;
        actions.push(action);
    }
    (actions, wire)
}

#[test]
fn tokenizer_address_is_the_loopback_port_9001() {
    assert_eq!(TOKENIZER_HOST, "127.0.0.1");
    assert_eq!(TOKENIZER_PORT, 9001);
}

#[test]
fn process_starts_by_connecting_and_holds_the_utf8_payload() {
    let (wire, action) = process("你好世界", "zh_CN");
    assert_eq!(action, WireAction::Connect { host: "127.0.0.1", port: 9001 });
    assert_eq!(wire, Wire::Connecting("你好世界".as_bytes().to_vec()));
}

#[test]
fn process_does_not_transmit_the_language() {
    let (with_zh, _) = process("abc", "zh_CN");
    let (with_en, _) = process("abc", "en");
    assert_eq!(with_zh, with_en);
    assert_eq!(with_zh, Wire::Connecting(vec![b'a', b'b', b'c']));
}

#[test]
fn a_full_exchange_connects_sends_receives_and_finishes() {
    let (actions, wire) = exchange(
        "你好世界",
        vec![
            WireEvent::Connected,
            WireEvent::Sent,
            WireEvent::Received("你好 世界".as_bytes().to_vec()),
        ],
    );
    assert_eq!(
        actions,
        vec![
            WireAction::Connect { host: "127.0.0.1", port: 9001 },
            WireAction::Send(vec![
                0xe4, 0xbd, 0xa0, 0xe5, 0xa5, 0xbd, 0xe4, 0xb8, 0x96, 0xe7, 0x95, 0x8c
            ]),
            WireAction::Receive,
            WireAction::Finish(Ok("你好 世界".to_string())),
        ]
    );
    assert_eq!(wire, Wire::Closed);
}

#[test]
fn an_empty_answer_is_an_empty_string() {
    let (actions, _) =
        exchange("x", vec![WireEvent::Connected, WireEvent::Sent, WireEvent::Received(vec![])]);
    assert_eq!(actions[3], WireAction::Finish(Ok(String::new())));
}

#[test]
fn an_empty_text_sends_an_empty_payload() {
    let (actions, _) = exchange("", vec![WireEvent::Connected]);
    assert_eq!(actions[1], WireAction::Send(vec![]));
}

#[test]
fn a_refused_connection_is_connection_failed() {
    let (actions, wire) = exchange("abc", vec![WireEvent::Refused]);
    assert_eq!(actions[1], WireAction::Finish(Err(TokenizeError::ConnectionFailed)));
    assert_eq!(wire, Wire::Closed);
}

#[test]
fn a_failed_write_is_io_failure() {
    let (actions, wire) = exchange("abc", vec![WireEvent::Connected, WireEvent::Broken]);
    assert_eq!(actions[2], WireAction::Finish(Err(TokenizeError::IOFailure)));
    assert_eq!(wire, Wire::Closed);
}

#[test]
fn a_failed_read_is_io_failure() {
    let (actions, wire) =
        exchange("abc", vec![WireEvent::Connected, WireEvent::Sent, WireEvent::Broken]);
    assert_eq!(actions[3], WireAction::Finish(Err(TokenizeError::IOFailure)));
    assert_eq!(wire, Wire::Closed);
}

#[test]
fn an_answer_that_is_not_utf8_is_io_failure() {
    let (actions, _) = exchange(
        "abc",
        vec![WireEvent::Connected, WireEvent::Sent, WireEvent::Received(vec![0x61, 0xff, 0x62])],
    );
    assert_eq!(actions[3], WireAction::Finish(Err(TokenizeError::IOFailure)));
    let (truncated, _) = exchange(
        "abc",
        vec![WireEvent::Connected, WireEvent::Sent, WireEvent::Received(vec![0xe4, 0xbd])],
    );
    assert_eq!(truncated[3], WireAction::Finish(Err(TokenizeError::IOFailure)));
}

#[test]
fn an_answer_is_decoded_not_echoed() {
    let (actions, _) = exchange(
        "abc",
        vec![WireEvent::Connected, WireEvent::Sent, WireEvent::Received(vec![0xc3, 0xa9, 0x20, 0x61])],
    );
    match &actions[3] {
        WireAction::Finish(Ok(text)) => {
            assert_eq!(text, "é a");
            assert_eq!(text.chars().count(), 3);
        }
        other => panic!("unexpected action {:?}", other),
    }
}

#[test]
fn an_event_out_of_turn_ends_the_exchange() {
    let (early_data, _) = exchange("abc", vec![WireEvent::Received(vec![0x61])]);
    assert_eq!(early_data[1], WireAction::Finish(Err(TokenizeError::ConnectionFailed)));
    let (early_sent, _) = exchange("abc", vec![WireEvent::Sent]);
    assert_eq!(early_sent[1], WireAction::Finish(Err(TokenizeError::ConnectionFailed)));
    let (twice, _) = exchange("abc", vec![WireEvent::Connected, WireEvent::Connected]);
    assert_eq!(twice[2], WireAction::Finish(Err(TokenizeError::IOFailure)));
    let (refused_late, _) =
        exchange("abc", vec![WireEvent::Connected, WireEvent::Sent, WireEvent::Refused]);
    assert_eq!(refused_late[3], WireAction::Finish(Err(TokenizeError::IOFailure)));
}

#[test]
fn a_closed_exchange_stays_closed() {
    let (actions, wire) = exchange("abc", vec![WireEvent::Refused, WireEvent::Connected]);
    assert_eq!(actions[2], WireAction::Finish(Err(TokenizeError::IOFailure)));
    assert_eq!(wire, Wire::Closed);
}
