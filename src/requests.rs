//! Messages sent to the server, and the values of requests.

use vstd::prelude::*;

verus! {

/// Bit mask of the event categories that a client subscribes to.
#[derive(Clone, Copy, Debug, PartialEq, Eq, Structural)]
pub struct EventSubscription {
    /// The raw bits of the mask, as sent on the wire.
    pub bits: u32,
}

/// The message by which the client identifies itself, answering the server's `Hello`.
#[derive(Debug)]
pub struct Identify {
    /// The RPC version that the client wants to use.
    pub rpc_version: u32,
    /// The authentication token, when the server asked for one and a password is known.
    pub authentication: Option<String>,
    /// The events that the client wants to receive.
    pub event_subscriptions: Option<EventSubscription>,
}

/// Request information for taking a screenshot of a source.
#[derive(Clone, Copy, Debug, Default)]
pub struct TakeScreenshot<'a> {
    /// Name of the source to take a screenshot of.
    pub source: &'a str,
    /// Image compression format to use.
    pub format: &'a str,
    /// Width to scale the screenshot to.
    pub width: Option<u32>,
    /// Height to scale the screenshot to.
    pub height: Option<u32>,
    /// Compression quality to use. 0 for high compression, 100 for uncompressed. -1 to use
    /// "default".
    pub compression_quality: Option<i32>,
}

/// Request information for saving a screenshot of a source to a file.
#[derive(Clone, Copy, Debug)]
pub struct SaveScreenshot<'a> {
    /// Name of the source to take a screenshot of.
    pub source: &'a str,
    /// Image compression format to use.
    pub format: &'a str,
    /// Width to scale the screenshot to.
    pub width: Option<u32>,
    /// Height to scale the screenshot to.
    pub height: Option<u32>,
    /// Compression quality to use. 0 for high compression, 100 for uncompressed. -1 to use
    /// "default".
    pub compression_quality: Option<i32>,
    /// Path to save the screenshot file to, as text.
    pub file_path: &'a str,
}

} // verus!
