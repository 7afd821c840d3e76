//! Client session engine for the obs-websocket remote-control protocol: authentication,
//! the initial handshake, correlation of request responses and re-identify waiters.

mod auth;
mod close_code;
mod foreign;
mod handshake;
mod receivers;
mod request_id;
pub mod requests;
pub mod responses;
mod status;

pub use auth::{
    auth_response, auth_secret, base64_of, create_auth_response,
    lemma_auth_response_deterministic, sha256_of,
};
pub use close_code::{
    close_code_value, is_close_code_value, lemma_close_code_injective, WebSocketCloseCode,
};
pub use handshake::{
    frame_error, identify_for, is_auth_answer, is_transition, read_message, Frame, Handshake,
    HandshakeAction, HandshakeError, HandshakeState,
};
pub use receivers::{Delivery, NotifyError, ReceiverList, ReidentifyReceiverList};
pub use request_id::{
    all_digits, decimal_of, digit_char, digit_value, digits_value, is_digit,
    lemma_request_id_round_trip, parse_request_id, parse_request_id_spec, request_id_string,
    unsigned_digits,
};
pub use status::{is_status_code_value, status_code_value, StatusCode};
