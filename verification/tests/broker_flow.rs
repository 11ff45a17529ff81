use keyleash::client::{get_request, read_reply, ClientError};
use keyleash::name::SecretName;
use keyleash::policy::{DenyReason, SecretNameSet};
use keyleash::protocol::{
    check_incoming, ErrorCode, ProtocolError, Request, RequestFrame, Response, ResponseFrame,
    MAX_FRAME_SIZE, PROTOCOL_VERSION,
};
use keyleash::session::{resolution_frame, BrokerSession, ServeStep, SessionError};

fn database_url() -> SecretName {
    SecretName::try_from("DATABASE_URL").unwrap()
}

/// Serves one well-received request, calling `resolve` when the session
/// asks for the secret, and returns the frame sent back.
fn serve<F>(session: &mut BrokerSession<()>, request: RequestFrame, resolve: F) -> ResponseFrame
where
    F: FnOnce(&SecretName) -> Option<String>,
{
    session.begin_serve().unwrap();
    let reply = match session.on_request(Ok(Some(request))).unwrap() {
        ServeStep::Respond(frame) => frame,
        ServeStep::Resolve(name) => resolution_frame(resolve(&name)),
    };
    session.on_sent(Ok(())).unwrap();
    reply
}

fn json_error() -> serde_json::Error {
    serde_json::from_slice::<serde_json::Value>(b"not-json").unwrap_err()
}

#[test]
fn allowed_request_resolves_and_reaches_the_child() {
    let allowed = SecretNameSet::from_names(vec![database_url()]);
    let mut session = BrokerSession::new((), allowed);
    let mut resolved = false;
    let reply = serve(&mut session, get_request(database_url()), |name| {
        assert_eq!(name.as_ref(), "DATABASE_URL");
        resolved = true;
        Some("postgres://example".to_owned())
    });
    assert!(resolved);
    assert_eq!(read_reply(Ok(Some(reply))).unwrap(), "postgres://example");
}

#[test]
fn denied_request_never_calls_the_resolver() {
    let mut session = BrokerSession::new((), SecretNameSet::new());
    let reply = serve(&mut session, get_request(database_url()), |_| {
        panic!("resolver must not run after denial")
    });
    assert!(matches!(
        read_reply(Ok(Some(reply))),
        Err(ClientError::Denied(DenyReason::NotAllowed))
    ));
}

#[test]
fn missing_allowed_secret_returns_a_typed_error() {
    let allowed = SecretNameSet::from_names(vec![database_url()]);
    let mut session = BrokerSession::new((), allowed);
    let reply = serve(&mut session, get_request(database_url()), |_| None);
    assert!(matches!(
        read_reply(Ok(Some(reply))),
        Err(ClientError::Remote(ErrorCode::SecretNotFound))
    ));
}

#[test]
fn unsupported_version_gets_an_error_response() {
    let mut session = BrokerSession::new((), SecretNameSet::new());
    let request = RequestFrame {
        version: 2,
        request: Request::Get { name: database_url() },
    };
    let reply = serve(&mut session, request, |_| {
        panic!("resolver must not run for unsupported version")
    });
    assert_eq!(reply.version, 1);
    assert!(matches!(
        reply.response,
        Response::Error { code: ErrorCode::UnsupportedVersion }
    ));
}

#[test]
fn malformed_json_ends_the_session() {
    let mut session = BrokerSession::new((), SecretNameSet::new());
    session.begin_serve().unwrap();
    assert!(matches!(
        session.on_request(Err(ProtocolError::Json(json_error()))),
        Err(SessionError::Protocol(ProtocolError::Json(_)))
    ));
}

#[test]
fn malformed_json_prevents_later_requests() {
    let mut session = BrokerSession::new((), SecretNameSet::new());
    session.begin_serve().unwrap();
    assert!(matches!(
        session.on_request(Err(ProtocolError::Json(json_error()))),
        Err(SessionError::Protocol(ProtocolError::Json(_)))
    ));
    assert!(matches!(session.begin_serve(), Err(SessionError::Closed)));
}

#[test]
fn oversized_packet_ends_the_session_before_decoding() {
    let mut session = BrokerSession::new((), SecretNameSet::new());
    session.begin_serve().unwrap();
    let received = check_incoming(MAX_FRAME_SIZE, MAX_FRAME_SIZE + 1).map(|_| None);
    assert!(matches!(
        session.on_request(received),
        Err(SessionError::Protocol(ProtocolError::FrameTooLarge { len }))
            if len == MAX_FRAME_SIZE + 1
    ));
    assert!(matches!(session.begin_serve(), Err(SessionError::Closed)));
}

#[test]
fn client_rejects_an_unsupported_response_version() {
    let request = get_request(database_url());
    match &request.request {
        Request::Get { name } => assert_eq!(name.as_ref(), "DATABASE_URL"),
    }
    assert_eq!(request.version, PROTOCOL_VERSION);
    let reply = ResponseFrame {
        version: 2,
        response: Response::Value {
            value: "irrelevant".to_owned(),
        },
    };
    assert!(matches!(
        read_reply(Ok(Some(reply))),
        Err(ClientError::UnsupportedVersion(2))
    ));
}

#[test]
fn end_of_channel_closes_the_session() {
    let mut session = BrokerSession::new((), SecretNameSet::new());
    assert!(matches!(session.on_request(Ok(None)), Err(SessionError::Closed)));
    assert!(matches!(session.begin_serve(), Err(SessionError::Closed)));
}

#[test]
fn a_failed_send_ends_the_session() {
    let allowed = SecretNameSet::from_names(vec![database_url()]);
    let mut session = BrokerSession::new((), allowed);
    session.begin_serve().unwrap();
    assert!(matches!(
        session.on_request(Ok(Some(get_request(database_url())))),
        Ok(ServeStep::Resolve(_))
    ));
    let sent = Err(ProtocolError::FrameTooLarge { len: MAX_FRAME_SIZE + 9 });
    assert!(matches!(
        session.on_sent(sent),
        Err(SessionError::Protocol(ProtocolError::FrameTooLarge { .. }))
    ));
    assert!(matches!(session.begin_serve(), Err(SessionError::Closed)));
}

#[test]
fn a_session_serves_many_requests() {
    let allowed = SecretNameSet::from_names(vec![database_url()]);
    let mut session = BrokerSession::new((), allowed);
    for _ in 0..3 {
        let reply = serve(&mut session, get_request(database_url()), |_| Some("v".to_owned()));
        assert_eq!(read_reply(Ok(Some(reply))).unwrap(), "v");
    }
    let reply = serve(
        &mut session,
        get_request(SecretName::try_from("OTHER").unwrap()),
        |_| panic!("not allowed"),
    );
    assert!(matches!(
        read_reply(Ok(Some(reply))),
        Err(ClientError::Denied(DenyReason::NotAllowed))
    ));
}

#[test]
fn client_reports_a_closed_channel_and_transport_errors() {
    assert!(matches!(read_reply(Ok(None)), Err(ClientError::Closed)));
    assert!(matches!(
        read_reply(Err(ProtocolError::FrameTooLarge { len: 70000 })),
        Err(ClientError::Protocol(ProtocolError::FrameTooLarge { len: 70000 }))
    ));
}

#[test]
fn resolution_frames_carry_the_value_or_the_missing_code() {
    let found = resolution_frame(Some("s3cr3t".to_owned()));
    assert_eq!(found.version, PROTOCOL_VERSION);
    assert!(matches!(found.response, Response::Value { ref value } if value == "s3cr3t"));
    let missing = resolution_frame(None);
    assert!(matches!(
        missing.response,
        Response::Error { code: ErrorCode::SecretNotFound }
    ));
}

#[test]
fn the_session_keeps_its_channel() {
    let mut session = BrokerSession::new(7u32, SecretNameSet::new());
    assert_eq!(*session.child(), 7);
    *session.child_mut() = 8;
    assert_eq!(*session.child(), 8);
}
