use keyleash::protocol::{
    check_incoming, check_outgoing, check_sent, ProtocolError, MAX_FRAME_SIZE, PROTOCOL_VERSION,
};

#[test]
fn protocol_constants() {
    assert_eq!(PROTOCOL_VERSION, 1);
    assert_eq!(MAX_FRAME_SIZE, 65536);
}

#[test]
fn rejects_an_oversized_incoming_packet() {
    let result = check_incoming(MAX_FRAME_SIZE, MAX_FRAME_SIZE + 1);
    assert!(matches!(
        result,
        Err(ProtocolError::FrameTooLarge { len }) if len == MAX_FRAME_SIZE + 1
    ));
}

#[test]
fn rejects_an_oversized_outgoing_frame() {
    let encoded = format!(
        r#"{{"version":1,"response":{{"type":"value","value":"{}"}}}}"#,
        "x".repeat(MAX_FRAME_SIZE)
    );
    assert!(matches!(
        check_outgoing(encoded.len()),
        Err(ProtocolError::FrameTooLarge { len }) if len > MAX_FRAME_SIZE
    ));
}

#[test]
fn outgoing_limit_is_inclusive() {
    assert!(check_outgoing(MAX_FRAME_SIZE).is_ok());
    assert!(check_outgoing(0).is_ok());
    assert!(matches!(
        check_outgoing(MAX_FRAME_SIZE + 1),
        Err(ProtocolError::FrameTooLarge { len }) if len == MAX_FRAME_SIZE + 1
    ));
}

#[test]
fn empty_packet_marks_the_end_of_the_channel() {
    assert!(matches!(check_incoming(0, 0), Ok(None)));
}

#[test]
fn whole_packet_is_a_frame_of_its_length() {
    assert!(matches!(check_incoming(42, 42), Ok(Some(42))));
    assert!(matches!(
        check_incoming(MAX_FRAME_SIZE, MAX_FRAME_SIZE),
        Ok(Some(len)) if len == MAX_FRAME_SIZE
    ));
}

#[test]
fn a_short_send_is_an_io_error() {
    assert!(check_sent(10, 10).is_ok());
    match check_sent(3, 10) {
        Err(ProtocolError::Io(error)) => {
            assert_eq!(error.kind(), std::io::ErrorKind::WriteZero);
            assert_eq!(error.to_string(), "short packet send");
        }
        other => panic!("expected an I/O error, got {other:?}"),
    }
}

#[test]
fn an_admitted_frame_arrives_whole() {
    for len in [1usize, 512, MAX_FRAME_SIZE] {
        assert!(check_outgoing(len).is_ok());
        assert!(matches!(check_incoming(len, len), Ok(Some(n)) if n == len));
    }
}
