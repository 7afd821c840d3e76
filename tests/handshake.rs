use obws::requests::EventSubscription;
use obws::responses::{Authentication, Hello, Identified, RequestResponse, ServerMessage, Status};
use obws::{
    create_auth_response, identify_for, read_message, Frame, Handshake, HandshakeAction,
    HandshakeError, HandshakeState, StatusCode,
};

fn hello(authentication: Option<Authentication>) -> Frame {
    Frame::Message(ServerMessage::Hello(Hello {
        obs_web_socket_version: semver::Version::new(5, 0, 0),
        rpc_version: 1,
        authentication,
    }))
}

fn identified(version: u32) -> Frame {
    Frame::Message(ServerMessage::Identified(Identified { negotiated_rpc_version: version }))
}

fn challenge() -> Option<Authentication> {
    Some(Authentication { challenge: String::from("c"), salt: String::from("s") })
}

#[test]
fn handshake_without_authentication_succeeds() {
    let mut hs = Handshake::new(None, None);
    assert_eq!(hs.state(), HandshakeState::AwaitingHello);
    match hs.step(hello(None)) {
        HandshakeAction::SendIdentify(identify) => {
            assert_eq!(identify.rpc_version, 1);
            assert_eq!(identify.authentication, None);
            assert_eq!(identify.event_subscriptions, None);
        }
        other => panic!("unexpected {:?}", other),
    }
    assert_eq!(hs.state(), HandshakeState::AwaitingIdentified);
    match hs.step(identified(1)) {
        HandshakeAction::Finished(version) => assert_eq!(version, 1),
        other => panic!("unexpected {:?}", other),
    }
    assert_eq!(hs.state(), HandshakeState::Ready(1));
}

#[test]
fn handshake_without_password_omits_token() {
    let mut hs = Handshake::new(None, Some(EventSubscription { bits: 0x3ff }));
    match hs.step(hello(challenge())) {
        HandshakeAction::SendIdentify(identify) => {
            assert_eq!(identify.authentication, None);
            assert_eq!(identify.event_subscriptions, Some(EventSubscription { bits: 0x3ff }));
        }
        other => panic!("unexpected {:?}", other),
    }
}

#[test]
fn handshake_with_password_sends_token() {
    let mut hs = Handshake::new(Some("p"), None);
    match hs.step(hello(challenge())) {
        HandshakeAction::SendIdentify(identify) => {
            assert_eq!(
                identify.authentication.as_deref(),
                Some("LEfh2WVBWpa8M06P7MehLXlToA1PtH2lNSNPjUZVYls=")
            );
            assert_eq!(identify.authentication, Some(create_auth_response("c", "s", "p")));
        }
        other => panic!("unexpected {:?}", other),
    }
}

#[test]
fn password_without_challenge_sends_no_token() {
    let h = Hello {
        obs_web_socket_version: semver::Version::new(5, 1, 0),
        rpc_version: 2,
        authentication: None,
    };
    let identify = identify_for(&h, Some("p"), None);
    assert_eq!(identify.rpc_version, 2);
    assert_eq!(identify.authentication, None);
}

#[test]
fn handshake_fails_when_stream_closes() {
    let mut hs = Handshake::new(Some("p"), None);
    assert!(matches!(hs.step(Frame::Closed), HandshakeAction::Fail(HandshakeError::ConnectionClosed)));
    assert_eq!(hs.state(), HandshakeState::Failed);
}

#[test]
fn handshake_fails_without_hello() {
    let mut hs = Handshake::new(None, None);
    assert!(matches!(hs.step(identified(1)), HandshakeAction::Fail(HandshakeError::NoHello)));
    assert_eq!(hs.state(), HandshakeState::Failed);
}

#[test]
fn handshake_fails_without_identified() {
    let mut hs = Handshake::new(None, None);
    assert!(matches!(hs.step(hello(None)), HandshakeAction::SendIdentify(_)));
    assert!(matches!(hs.step(hello(None)), HandshakeAction::Fail(HandshakeError::NoIdentified)));
    assert_eq!(hs.state(), HandshakeState::Failed);
}

#[test]
fn handshake_fails_on_request_response_at_identify_stage() {
    let mut hs = Handshake::new(None, None);
    hs.step(hello(None));
    let frame = Frame::Message(ServerMessage::RequestResponse(RequestResponse {
        request_type: String::from("GetVersion"),
        request_id: String::from("1"),
        request_status: Status { result: true, code: StatusCode::Success, comment: None },
        response_data: serde_json::Value::Null,
    }));
    assert!(matches!(hs.step(frame), HandshakeAction::Fail(HandshakeError::NoIdentified)));
}

#[test]
fn handshake_reports_transport_and_decode_errors() {
    let mut hs = Handshake::new(None, None);
    let err = tokio_tungstenite::tungstenite::Error::ConnectionClosed;
    assert!(matches!(hs.step(Frame::ReceiveFailed(err)), HandshakeAction::Fail(HandshakeError::Receive(_))));

    let mut hs = Handshake::new(None, None);
    let err = tokio_tungstenite::tungstenite::Error::Utf8;
    assert!(matches!(hs.step(Frame::NotText(err)), HandshakeAction::Fail(HandshakeError::IntoText(_))));

    let mut hs = Handshake::new(None, None);
    hs.step(hello(None));
    let err = serde_json::from_str::<serde_json::Value>("{").unwrap_err();
    assert!(matches!(
        hs.step(Frame::Undecodable(err)),
        HandshakeAction::Fail(HandshakeError::DeserializeMessage(_))
    ));
}

#[test]
fn read_message_maps_frames() {
    assert!(matches!(read_message(Frame::Closed), Err(HandshakeError::ConnectionClosed)));
    assert!(matches!(read_message(identified(3)), Ok(ServerMessage::Identified(Identified { negotiated_rpc_version: 3 }))));
    assert!(matches!(read_message(Frame::Message(ServerMessage::Event)), Ok(ServerMessage::Event)));
}
