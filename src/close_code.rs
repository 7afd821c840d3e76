use vstd::prelude::*;

verus! {

/// Possible custom web-socket close codes, that are sent by the server in case of a problem.
#[derive(Clone, Copy, Debug, PartialEq, Eq, Structural)]
pub enum WebSocketCloseCode {
    /// For internal use only to tell the request handler not to perform any close action.
    DontClose,
    /// Unknown reason, should never be used.
    UnknownReason,
    /// The server was unable to decode the incoming web-socket message.
    MessageDecodeError,
    /// A data field is required but missing from the payload.
    MissingDataField,
    /// A data field's value type is invalid.
    InvalidDataFieldType,
    /// A data field's value is invalid.
    InvalidDataFieldValue,
    /// The specified `op` was invalid or missing.
    UnknownOpCode,
    /// The client sent a web-socket message without first sending `Identify` message.
    NotIdentified,
    /// The client sent an `Identify` message while already identified.
    AlreadyIdentified,
    /// The authentication attempt (via `Identify`) failed.
    AuthenticationFailed,
    /// The server detected the usage of an old version of the obs-websocket RPC protocol.
    UnsupportedRpcVersion,
    /// The web-socket session has been invalidated by the obs-websocket server.
    SessionInvalidated,
    /// A requested feature is not supported due to hardware/software limitations.
    UnsupportedFeature,
}

/// The wire value of each close code.
pub open spec fn close_code_value(c: WebSocketCloseCode) -> u16 {
    match c {
        WebSocketCloseCode::DontClose => 0,
        WebSocketCloseCode::UnknownReason => 4000,
        WebSocketCloseCode::MessageDecodeError => 4002,
        WebSocketCloseCode::MissingDataField => 4003,
        WebSocketCloseCode::InvalidDataFieldType => 4004,
        WebSocketCloseCode::InvalidDataFieldValue => 4005,
        WebSocketCloseCode::UnknownOpCode => 4006,
        WebSocketCloseCode::NotIdentified => 4007,
        WebSocketCloseCode::AlreadyIdentified => 4008,
        WebSocketCloseCode::AuthenticationFailed => 4009,
        WebSocketCloseCode::UnsupportedRpcVersion => 4010,
        WebSocketCloseCode::SessionInvalidated => 4011,
        WebSocketCloseCode::UnsupportedFeature => 4012,
    }
}

/// Whether `v` is the wire value of some close code.
pub open spec fn is_close_code_value(v: u16) -> bool {
    v == 0 || v == 4000 || (4002 <= v && v <= 4012)
}

impl WebSocketCloseCode {
    /// The numeric code sent on the wire for this close reason.
    pub fn code(&self) -> (r: u16)
        ensures
            r == close_code_value(*self),
    {
        match self {
            WebSocketCloseCode::DontClose => 0,
            WebSocketCloseCode::UnknownReason => 4000,
            WebSocketCloseCode::MessageDecodeError => 4002,
            WebSocketCloseCode::MissingDataField => 4003,
            WebSocketCloseCode::InvalidDataFieldType => 4004,
            WebSocketCloseCode::InvalidDataFieldValue => 4005,
            WebSocketCloseCode::UnknownOpCode => 4006,
            WebSocketCloseCode::NotIdentified => 4007,
            WebSocketCloseCode::AlreadyIdentified => 4008,
            WebSocketCloseCode::AuthenticationFailed => 4009,
            WebSocketCloseCode::UnsupportedRpcVersion => 4010,
            WebSocketCloseCode::SessionInvalidated => 4011,
            WebSocketCloseCode::UnsupportedFeature => 4012,
        }
    }

    /// Interprets a numeric close code received from the server; `None` for a code that the
    /// protocol does not define.
    pub fn from_code(v: u16) -> (r: Option<WebSocketCloseCode>)
        ensures
            r.is_some() <==> is_close_code_value(v),
            r matches Some(c) ==> close_code_value(c) == v,
    {
        match v {
            0 => Some(WebSocketCloseCode::DontClose),
            4000 => Some(WebSocketCloseCode::UnknownReason),
            4002 => Some(WebSocketCloseCode::MessageDecodeError),
            4003 => Some(WebSocketCloseCode::MissingDataField),
            4004 => Some(WebSocketCloseCode::InvalidDataFieldType),
            4005 => Some(WebSocketCloseCode::InvalidDataFieldValue),
            4006 => Some(WebSocketCloseCode::UnknownOpCode),
            4007 => Some(WebSocketCloseCode::NotIdentified),
            4008 => Some(WebSocketCloseCode::AlreadyIdentified),
            4009 => Some(WebSocketCloseCode::AuthenticationFailed),
            4010 => Some(WebSocketCloseCode::UnsupportedRpcVersion),
            4011 => Some(WebSocketCloseCode::SessionInvalidated),
            4012 => Some(WebSocketCloseCode::UnsupportedFeature),
            _ => None,
        }
    }
}

/// Distinct close reasons have distinct wire values, so a code names at most one reason.
pub proof fn lemma_close_code_injective(a: WebSocketCloseCode, b: WebSocketCloseCode)
    ensures
        close_code_value(a) == close_code_value(b) ==> a == b,
{
}

} // verus!
