use redis_conn::connection::acknowledge;
use redis_conn::connection::Action;
use redis_conn::connection::ConnState;
use redis_conn::connection::Connection;
use redis_conn::connection::Event;
use redis_conn::outcome::classify_read;
use redis_conn::outcome::ReadOutcome;
use redis_conn::wire::BUF_SIZE;
use std::io::Error;
use std::io::ErrorKind;

fn read(bytes: &[u8]) -> Event {
    Event::ReadAttempted(classify_read(Ok(bytes.len()), bytes.to_vec()))
}

fn read_failed(kind: ErrorKind) -> Event {
    Event::ReadAttempted(classify_read(Err(Error::from(kind)), Vec::new()))
}

fn expect_acknowledge(action: &Action, count: usize, decoded: &str) {
    match action {
        Action::Acknowledge { bytes_read, text, reply } => {
            assert_eq!(*bytes_read, count);
            assert_eq!(text, decoded);
            assert_eq!(reply, &b"+OK\r\n".to_vec());
        }
        other => panic!("{:?}", other),
    }
}

#[test]
fn test_process_redis_conn() {
    let mut conn = Connection::new("localhost:6379".to_string());
    let message = "PING\r\n";
    let actions = conn.run(vec![read(message.as_bytes()), read(b"")]);
    assert_eq!(actions.len(), 2);
    expect_acknowledge(&actions[0], 6, "PING\r\n");
    assert!(matches!(actions[1], Action::Close));
    assert_eq!(conn.state(), ConnState::Closed);
    assert_eq!(conn.peer(), "localhost:6379");
}

#[test]
fn new_connection_is_reading() {
    let conn = Connection::new("10.0.0.7:40123".to_string());
    assert_eq!(conn.state(), ConnState::Reading);
    assert!(!conn.state().terminal());
    assert_eq!(conn.peer(), "10.0.0.7:40123");
}

#[test]
fn only_reading_goes_on() {
    assert!(!ConnState::Reading.terminal());
    assert!(ConnState::Closed.terminal());
    assert!(ConnState::Failed.terminal());
}

#[test]
fn data_is_acknowledged_and_reading_goes_on() {
    let mut conn = Connection::new("peer".to_string());
    let action = conn.step(read(b"hello"));
    expect_acknowledge(&action, 5, "hello");
    assert_eq!(conn.state(), ConnState::Reading);
}

#[test]
fn acknowledgment_does_not_depend_on_the_input() {
    let mut conn = Connection::new("peer".to_string());
    let inputs: Vec<&[u8]> = vec![b"PING\r\n", b"SET k v\r\n", b"\x00", b"garbage", b"+OK\r\n"];
    for input in inputs {
        match conn.step(read(input)) {
            Action::Acknowledge { reply, .. } => assert_eq!(reply, b"+OK\r\n".to_vec()),
            other => panic!("{:?}", other),
        }
    }
    assert_eq!(conn.state(), ConnState::Reading);
}

#[test]
fn ill_formed_bytes_are_replaced_not_fatal() {
    let mut conn = Connection::new("peer".to_string());
    let action = conn.step(read(&[0x50, 0xff, 0x49]));
    expect_acknowledge(&action, 3, "P\u{fffd}I");
    assert_eq!(conn.state(), ConnState::Reading);
}

#[test]
fn truncated_sequence_is_replaced() {
    let mut conn = Connection::new("peer".to_string());
    let action = conn.step(read(&[0x61, 0xe2, 0x82]));
    expect_acknowledge(&action, 3, "a\u{fffd}");
}

#[test]
fn well_formed_multibyte_text_is_decoded() {
    let mut conn = Connection::new("peer".to_string());
    let text = "h\u{e9}llo \u{20ac}";
    let action = conn.step(read(text.as_bytes()));
    expect_acknowledge(&action, text.len(), text);
}

#[test]
fn decoded_text_is_of_the_whole_buffer_and_count_is_as_reported() {
    let mut conn = Connection::new("peer".to_string());
    let action = conn.step(Event::ReadAttempted(classify_read(Ok(2), b"abcd".to_vec())));
    expect_acknowledge(&action, 2, "abcd");
}

#[test]
fn zero_length_read_closes_without_acknowledgment() {
    let mut conn = Connection::new("peer".to_string());
    let actions = conn.run(vec![read(b"")]);
    assert_eq!(actions.len(), 1);
    assert!(matches!(actions[0], Action::Close));
    assert_eq!(conn.state(), ConnState::Closed);
}

#[test]
fn would_block_waits_again() {
    let mut conn = Connection::new("peer".to_string());
    let action = conn.step(read_failed(ErrorKind::WouldBlock));
    assert!(matches!(action, Action::AwaitReadable));
    assert_eq!(conn.state(), ConnState::Reading);
}

#[test]
fn many_would_blocks_never_end_the_handler() {
    let mut conn = Connection::new("peer".to_string());
    let mut events = Vec::new();
    for _ in 0..50 {
        events.push(read_failed(ErrorKind::WouldBlock));
    }
    let actions = conn.run(events);
    assert_eq!(actions.len(), 50);
    assert!(actions.iter().all(|action| matches!(action, Action::AwaitReadable)));
    assert_eq!(conn.state(), ConnState::Reading);
}

#[test]
fn would_block_then_data_then_close() {
    let mut conn = Connection::new("peer".to_string());
    let actions = conn.run(vec![
        read_failed(ErrorKind::WouldBlock),
        read(b"PING\r\n"),
        read_failed(ErrorKind::WouldBlock),
        read(b""),
    ]);
    assert_eq!(actions.len(), 4);
    assert!(matches!(actions[0], Action::AwaitReadable));
    expect_acknowledge(&actions[1], 6, "PING\r\n");
    assert!(matches!(actions[2], Action::AwaitReadable));
    assert!(matches!(actions[3], Action::Close));
    assert_eq!(conn.state(), ConnState::Closed);
}

#[test]
fn reset_mid_read_fails_with_the_error_and_the_peer() {
    let mut conn = Connection::new("192.168.1.9:5555".to_string());
    let reset = Error::new(ErrorKind::ConnectionReset, "connection reset by peer");
    let actions = conn.run(vec![
        read(b"PING\r\n"),
        Event::ReadAttempted(classify_read(Err(reset), Vec::new())),
        read(b"never seen"),
    ]);
    assert_eq!(actions.len(), 2);
    expect_acknowledge(&actions[0], 6, "PING\r\n");
    match &actions[1] {
        Action::Fail(error) => {
            assert_eq!(error.peer, "192.168.1.9:5555");
            assert_eq!(error.source.kind(), ErrorKind::ConnectionReset);
            assert_eq!(error.source.to_string(), "connection reset by peer");
        }
        other => panic!("{:?}", other),
    }
    assert_eq!(conn.state(), ConnState::Failed);
}

#[test]
fn failed_readiness_fails_even_if_it_says_would_block() {
    let mut conn = Connection::new("peer".to_string());
    let action = conn.step(Event::ReadinessFailed(Error::from(ErrorKind::WouldBlock)));
    match action {
        Action::Fail(error) => {
            assert_eq!(error.peer, "peer");
            assert_eq!(error.source.kind(), ErrorKind::WouldBlock);
        }
        other => panic!("{:?}", other),
    }
    assert_eq!(conn.state(), ConnState::Failed);
}

#[test]
fn failed_acknowledgment_fails_the_connection() {
    let mut conn = Connection::new("peer".to_string());
    let first = conn.step(read(b"PING\r\n"));
    expect_acknowledge(&first, 6, "PING\r\n");
    let second = conn.step(Event::AcknowledgmentFailed(Error::from(ErrorKind::BrokenPipe)));
    match second {
        Action::Fail(error) => {
            assert_eq!(error.peer, "peer");
            assert_eq!(error.source.kind(), ErrorKind::BrokenPipe);
        }
        other => panic!("{:?}", other),
    }
    assert_eq!(conn.state(), ConnState::Failed);
}

#[test]
fn closed_connection_halts() {
    let mut conn = Connection::new("peer".to_string());
    assert!(matches!(conn.step(read(b"")), Action::Close));
    assert!(matches!(conn.step(read(b"late")), Action::Halt));
    assert!(matches!(conn.step(read_failed(ErrorKind::ConnectionReset)), Action::Halt));
    assert!(matches!(conn.step(Event::ReadinessFailed(Error::from(ErrorKind::Other))), Action::Halt));
    assert_eq!(conn.state(), ConnState::Closed);
}

#[test]
fn failed_connection_halts() {
    let mut conn = Connection::new("peer".to_string());
    assert!(matches!(conn.step(read_failed(ErrorKind::ConnectionReset)), Action::Fail(_)));
    assert!(matches!(conn.step(read(b"late")), Action::Halt));
    assert!(matches!(conn.step(read(b"")), Action::Halt));
    assert_eq!(conn.state(), ConnState::Failed);
}

#[test]
fn run_on_an_ended_connection_takes_nothing() {
    let mut conn = Connection::new("peer".to_string());
    conn.run(vec![read(b"")]);
    let actions = conn.run(vec![read(b"a"), read(b"b")]);
    assert!(actions.is_empty());
    assert_eq!(conn.state(), ConnState::Closed);
}

#[test]
fn empty_script_changes_nothing() {
    let mut conn = Connection::new("peer".to_string());
    let actions = conn.run(Vec::new());
    assert!(actions.is_empty());
    assert_eq!(conn.state(), ConnState::Reading);
}

#[test]
fn full_buffer_is_treated_like_any_other_read() {
    let mut conn = Connection::new("peer".to_string());
    let chunk = vec![b'x'; BUF_SIZE];
    let action = conn.step(read(&chunk));
    expect_acknowledge(&action, 1024, &"x".repeat(1024));
    assert_eq!(conn.state(), ConnState::Reading);
}

#[test]
fn message_longer_than_the_buffer_is_acknowledged_chunk_by_chunk() {
    let mut conn = Connection::new("peer".to_string());
    let message = vec![b'y'; 2500];
    let mut events = Vec::new();
    for chunk in message.chunks(BUF_SIZE) {
        events.push(read(chunk));
    }
    events.push(read(b""));
    let actions = conn.run(events);
    assert_eq!(actions.len(), 4);
    expect_acknowledge(&actions[0], 1024, &"y".repeat(1024));
    expect_acknowledge(&actions[1], 1024, &"y".repeat(1024));
    expect_acknowledge(&actions[2], 452, &"y".repeat(452));
    assert!(matches!(actions[3], Action::Close));
}

#[test]
fn frame_split_over_two_reads_is_not_put_together() {
    let mut conn = Connection::new("peer".to_string());
    let actions = conn.run(vec![read(b"PI"), read(b"NG\r\n")]);
    assert_eq!(actions.len(), 2);
    expect_acknowledge(&actions[0], 2, "PI");
    expect_acknowledge(&actions[1], 4, "NG\r\n");
    assert_eq!(conn.state(), ConnState::Reading);
}

#[test]
fn character_split_over_two_reads_is_replaced_in_both() {
    let mut conn = Connection::new("peer".to_string());
    let euro = "\u{20ac}".as_bytes();
    let actions = conn.run(vec![read(&euro[..1]), read(&euro[1..])]);
    expect_acknowledge(&actions[0], 1, "\u{fffd}");
    expect_acknowledge(&actions[1], 2, "\u{fffd}\u{fffd}");
}

#[test]
fn acknowledge_builds_the_fixed_reply() {
    let action = acknowledge(3, "abc".to_string());
    expect_acknowledge(&action, 3, "abc");
    let other = acknowledge(0, String::new());
    expect_acknowledge(&other, 0, "");
}

#[test]
fn same_input_on_two_connections_same_acknowledgment() {
    let mut one = Connection::new("1.1.1.1:1".to_string());
    let mut other = Connection::new("2.2.2.2:2".to_string());
    let from_one = one.step(read(b"PING\r\n"));
    let from_other = other.step(read(b"PING\r\n"));
    expect_acknowledge(&from_one, 6, "PING\r\n");
    expect_acknowledge(&from_other, 6, "PING\r\n");
}

#[test]
fn interleaving_two_connections_changes_neither() {
    let script_one = || vec![read(b"a"), read_failed(ErrorKind::WouldBlock), read(b"bc"), read(b"")];
    let script_other = || vec![read(b"xyz"), read_failed(ErrorKind::ConnectionReset), read(b"q")];

    let mut alone_one = Connection::new("one".to_string());
    let mut alone_other = Connection::new("other".to_string());
    let expected_one = format!("{:?}", alone_one.run(script_one()));
    let expected_other = format!("{:?}", alone_other.run(script_other()));

    let orders: Vec<Vec<bool>> = vec![
        vec![true, true, true, true, false, false, false],
        vec![false, false, false, true, true, true, true],
        vec![true, false, true, false, true, false, true],
        vec![false, true, true, false, false, true, true],
    ];
    for order in orders {
        let mut one = Connection::new("one".to_string());
        let mut other = Connection::new("other".to_string());
        let mut events_one = script_one().into_iter();
        let mut events_other = script_other().into_iter();
        let mut actions_one = Vec::new();
        let mut actions_other = Vec::new();
        for pick_one in order {
            if pick_one {
                let event = events_one.next().unwrap();
                if !one.state().terminal() {
                    actions_one.push(one.step(event));
                }
            } else {
                let event = events_other.next().unwrap();
                if !other.state().terminal() {
                    actions_other.push(other.step(event));
                }
            }
        }
        assert_eq!(format!("{:?}", actions_one), expected_one);
        assert_eq!(format!("{:?}", actions_other), expected_other);
        assert_eq!(one.state(), ConnState::Closed);
        assert_eq!(other.state(), ConnState::Failed);
    }
}

#[test]
fn error_on_one_connection_leaves_the_other_reading() {
    let mut one = Connection::new("one".to_string());
    let mut other = Connection::new("other".to_string());
    assert!(matches!(one.step(read_failed(ErrorKind::ConnectionReset)), Action::Fail(_)));
    assert_eq!(one.state(), ConnState::Failed);
    assert_eq!(other.state(), ConnState::Reading);
    let action = other.step(read(b"PING\r\n"));
    expect_acknowledge(&action, 6, "PING\r\n");
}

#[test]
fn outcome_variants_reach_the_handler_directly() {
    let mut conn = Connection::new("peer".to_string());
    let action = conn.step(Event::ReadAttempted(ReadOutcome::TransientUnavailable));
    assert!(matches!(action, Action::AwaitReadable));
    let action = conn.step(Event::ReadAttempted(ReadOutcome::Data { bytes_read: 1, bytes: vec![b'z'] }));
    expect_acknowledge(&action, 1, "z");
    let action = conn.step(Event::ReadAttempted(ReadOutcome::OrderlyClose));
    assert!(matches!(action, Action::Close));
}
