//! The initial exchange of a connection: `Hello` from the server, `Identify` from the client,
//! `Identified` from the server.
//!
//! The decisions stand here as a state machine that is fed one received frame at a time and
//! answers with the action to perform; reading and writing the transport is the caller's part.

use vstd::prelude::*;

use crate::auth::{auth_response, create_auth_response};
use crate::requests::{EventSubscription, Identify};
use crate::responses::{Hello, ServerMessage};

verus! {

/// Errors that can occur while performing the initial handshake with obs-websocket.
#[derive(Debug)]
pub enum HandshakeError {
    /// The connection to obs-websocket was closed while trying to read a message.
    ConnectionClosed,
    /// Receiving a message did not succeed.
    Receive(tokio_tungstenite::tungstenite::Error),
    /// The web-socket message was not convertible to text.
    IntoText(tokio_tungstenite::tungstenite::Error),
    /// A message from obs-websocket could not be deserialized.
    DeserializeMessage(serde_json::Error),
    /// A message could not be serialized for sending.
    SerializeMessage(serde_json::Error),
    /// Sending a message to obs-websocket failed.
    Send(tokio_tungstenite::tungstenite::Error),
    /// Didn't receive the initial `Hello` message from obs-websocket after connecting.
    NoHello,
    /// Didn't receive an `Identified` message from obs-websocket after authentication.
    NoIdentified,
}

/// What reading one frame from the transport gave.
#[derive(Debug)]
pub enum Frame {
    /// The stream ended before a frame arrived.
    Closed,
    /// The transport failed to read a frame.
    ReceiveFailed(tokio_tungstenite::tungstenite::Error),
    /// The frame could not be turned into text.
    NotText(tokio_tungstenite::tungstenite::Error),
    /// The text is not a valid server message.
    Undecodable(serde_json::Error),
    /// A decoded server message.
    Message(ServerMessage),
}

/// The error that a frame which carries no message stands for.
pub open spec fn frame_error(frame: Frame) -> HandshakeError
    recommends
        !(frame is Message),
{
    match frame {
        Frame::Closed => HandshakeError::ConnectionClosed,
        Frame::ReceiveFailed(e) => HandshakeError::Receive(e),
        Frame::NotText(e) => HandshakeError::IntoText(e),
        Frame::Undecodable(e) => HandshakeError::DeserializeMessage(e),
        Frame::Message(_) => HandshakeError::ConnectionClosed,
    }
}

/// The message of a frame, or the handshake error that the frame stands for.
pub fn read_message(frame: Frame) -> (r: Result<ServerMessage, HandshakeError>)
    ensures
        match frame {
            Frame::Message(m) => r == Ok::<ServerMessage, HandshakeError>(m),
            _ => r == Err::<ServerMessage, HandshakeError>(frame_error(frame)),
        },
{
    match frame {
        Frame::Closed => Err(HandshakeError::ConnectionClosed),
        Frame::ReceiveFailed(e) => Err(HandshakeError::Receive(e)),
        Frame::NotText(e) => Err(HandshakeError::IntoText(e)),
        Frame::Undecodable(e) => Err(HandshakeError::DeserializeMessage(e)),
        Frame::Message(m) => Ok(m),
    }
}

/// Whether `token` is the authentication answer owed to `hello` given `password`: a computed
/// token when the server asks for authentication and a password is known, else none.
pub open spec fn is_auth_answer(hello: Hello, password: Option<&str>, token: Option<String>) -> bool {
    match (hello.authentication, password) {
        (Some(a), Some(p)) => token matches Some(t) && t@ == auth_response(
            a.challenge@,
            a.salt@,
            p@,
        ),
        _ => token is None,
    }
}

/// Builds the `Identify` message that answers `hello`: the server's RPC version, the
/// authentication token when the server asks for one and a password is known, and the
/// requested event subscriptions.
pub fn identify_for(
    hello: &Hello,
    password: Option<&str>,
    event_subscriptions: Option<EventSubscription>,
) -> (r: Identify)
    ensures
        r.rpc_version == hello.rpc_version,
        is_auth_answer(*hello, password, r.authentication),
        r.event_subscriptions == event_subscriptions,
{
    let authentication = match (&hello.authentication, password) {
        (Some(auth), Some(password)) => Some(
            create_auth_response(auth.challenge.as_str(), auth.salt.as_str(), password),
        ),
        _ => None,
    };
    Identify { rpc_version: hello.rpc_version, authentication, event_subscriptions }
}

/// The stage that a handshake has reached.
#[derive(Clone, Copy, Debug, PartialEq, Eq, Structural)]
pub enum HandshakeState {
    /// Waiting for the server's `Hello`.
    AwaitingHello,
    /// `Identify` was sent; waiting for the server's `Identified`.
    AwaitingIdentified,
    /// The session is ready, with the RPC version that the server negotiated.
    Ready(u32),
    /// The handshake failed; the connection attempt is over.
    Failed,
}

/// The moves that a handshake can make in one step: from awaiting `Hello` to awaiting
/// `Identified`, from awaiting `Identified` to ready, and from either to failed.
pub open spec fn is_transition(from: HandshakeState, to: HandshakeState) -> bool {
    match from {
        HandshakeState::AwaitingHello => to == HandshakeState::AwaitingIdentified || to
            == HandshakeState::Failed,
        HandshakeState::AwaitingIdentified => to is Ready || to == HandshakeState::Failed,
        _ => false,
    }
}

/// What the caller is to do after a step of the handshake.
#[derive(Debug)]
pub enum HandshakeAction {
    /// Serialize this message and send it, then feed the next frame.
    SendIdentify(Identify),
    /// The handshake succeeded with this negotiated RPC version.
    Finished(u32),
    /// The handshake failed with this error.
    Fail(HandshakeError),
}

/// The handshake state machine of one connection attempt.
pub struct Handshake<'a> {
    state: HandshakeState,
    password: Option<&'a str>,
    event_subscriptions: Option<EventSubscription>,
}

impl<'a> Handshake<'a> {
    /// The current stage.
    pub closed spec fn spec_state(&self) -> HandshakeState {
        self.state
    }

    /// The password given for authentication, if any.
    pub closed spec fn spec_password(&self) -> Option<&'a str> {
        self.password
    }

    /// The event subscriptions to request.
    pub closed spec fn spec_event_subscriptions(&self) -> Option<EventSubscription> {
        self.event_subscriptions
    }

    /// Starts a handshake that waits for the server's `Hello`.
    pub fn new(password: Option<&'a str>, event_subscriptions: Option<EventSubscription>) -> (r:
        Self)
        ensures
            r.spec_state() == HandshakeState::AwaitingHello,
            r.spec_password() == password,
            r.spec_event_subscriptions() == event_subscriptions,
    {
        Handshake { state: HandshakeState::AwaitingHello, password, event_subscriptions }
    }

    /// The current stage.
    pub fn state(&self) -> (r: HandshakeState)
        ensures
            r == self.spec_state(),
    {
        self.state
    }

    /// Whether the handshake has ended, in success or failure.
    pub open spec fn is_finished(&self) -> bool {
        self.spec_state() is Ready || self.spec_state() is Failed
    }

    /// Feeds the next frame read from the transport and returns what to do next.
    ///
    /// Awaiting `Hello`, a `Hello` moves on to awaiting `Identified` and asks to send the
    /// `Identify` that answers it; awaiting `Identified`, an `Identified` ends the handshake in
    /// success. A frame that carries no message, or carries another message, ends it in failure.
    pub fn step(&mut self, frame: Frame) -> (r: HandshakeAction)
        requires
            !old(self).is_finished(),
        ensures
            is_transition(old(self).spec_state(), final(self).spec_state()),
            final(self).spec_password() == old(self).spec_password(),
            final(self).spec_event_subscriptions() == old(self).spec_event_subscriptions(),
            !(frame is Message) ==> {
                &&& final(self).spec_state() == HandshakeState::Failed
                &&& r == HandshakeAction::Fail(frame_error(frame))
            },
            old(self).spec_state() == HandshakeState::AwaitingHello ==> match frame {
                Frame::Message(ServerMessage::Hello(hello)) => {
                    &&& final(self).spec_state() == HandshakeState::AwaitingIdentified
                    &&& r matches HandshakeAction::SendIdentify(identify)
                    &&& identify.rpc_version == hello.rpc_version
                    &&& is_auth_answer(hello, old(self).spec_password(), identify.authentication)
                    &&& identify.event_subscriptions == old(self).spec_event_subscriptions()
                },
                Frame::Message(_) => {
                    &&& final(self).spec_state() == HandshakeState::Failed
                    &&& r == HandshakeAction::Fail(HandshakeError::NoHello)
                },
                _ => true,
            },
            old(self).spec_state() == HandshakeState::AwaitingIdentified ==> match frame {
                Frame::Message(ServerMessage::Identified(identified)) => {
                    &&& final(self).spec_state() == HandshakeState::Ready(
                        identified.negotiated_rpc_version,
                    )
                    &&& r == HandshakeAction::Finished(identified.negotiated_rpc_version)
                },
                Frame::Message(_) => {
                    &&& final(self).spec_state() == HandshakeState::Failed
                    &&& r == HandshakeAction::Fail(HandshakeError::NoIdentified)
                },
                _ => true,
            },
    {
        let message = match read_message(frame) {
            Ok(m) => m,
            Err(e) => {
                self.state = HandshakeState::Failed;
                return HandshakeAction::Fail(e);
            },
        };
        match self.state {
            HandshakeState::AwaitingHello => match message {
                ServerMessage::Hello(hello) => {
                    let identify = identify_for(&hello, self.password, self.event_subscriptions);
                    self.state = HandshakeState::AwaitingIdentified;
                    HandshakeAction::SendIdentify(identify)
                },
                _ => {
                    self.state = HandshakeState::Failed;
                    HandshakeAction::Fail(HandshakeError::NoHello)
                },
            },
            _ => match message {
                ServerMessage::Identified(identified) => {
                    self.state = HandshakeState::Ready(identified.negotiated_rpc_version);
                    HandshakeAction::Finished(identified.negotiated_rpc_version)
                },
                _ => {
                    self.state = HandshakeState::Failed;
                    HandshakeAction::Fail(HandshakeError::NoIdentified)
                },
            },
        }
    }
}

} // verus!
