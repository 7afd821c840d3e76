//! Messages received from the server, and the values of responses to requests.

use vstd::prelude::*;

use crate::status::StatusCode;

pub mod sources;

verus! {

/// The operation code that tags each message sent by the server.
#[derive(Clone, Copy, Debug, PartialEq, Eq, Structural)]
pub enum OpCode {
    /// The initial message sent by obs-websocket to newly connected clients.
    Hello,
    /// The response sent by obs-websocket to a client after it has successfully identified.
    Identified,
    /// The message sent by obs-websocket containing an event payload.
    Event,
    /// The message sent by obs-websocket in response to a particular request from a client.
    RequestResponse,
    /// The message sent by obs-websocket in response to a particular batch of requests.
    RequestBatchResponse,
}

/// The wire value of each server operation code.
pub open spec fn op_code_value(op: OpCode) -> u8 {
    match op {
        OpCode::Hello => 0,
        OpCode::Identified => 2,
        OpCode::Event => 5,
        OpCode::RequestResponse => 7,
        OpCode::RequestBatchResponse => 9,
    }
}

impl OpCode {
    /// The numeric operation code on the wire.
    pub fn code(&self) -> (r: u8)
        ensures
            r == op_code_value(*self),
    {
        match self {
            OpCode::Hello => 0,
            OpCode::Identified => 2,
            OpCode::Event => 5,
            OpCode::RequestResponse => 7,
            OpCode::RequestBatchResponse => 9,
        }
    }

    /// Reads the operation code of a server message; `None` for a code that the server never
    /// sends, which makes the message undecodable.
    pub fn from_code(v: u8) -> (r: Option<OpCode>)
        ensures
            r.is_some() <==> (v == 0 || v == 2 || v == 5 || v == 7 || v == 9),
            r matches Some(op) ==> op_code_value(op) == v,
    {
        match v {
            0 => Some(OpCode::Hello),
            2 => Some(OpCode::Identified),
            5 => Some(OpCode::Event),
            7 => Some(OpCode::RequestResponse),
            9 => Some(OpCode::RequestBatchResponse),
            _ => None,
        }
    }
}

/// A message sent by the server, decoded by its operation code.
#[derive(Debug)]
pub enum ServerMessage {
    /// First message sent from the server immediately on client connection.
    Hello(Hello),
    /// The identify request was received and validated; the connection is ready.
    Identified(Identified),
    /// An event coming from OBS has occurred.
    Event,
    /// `obs-websocket` is responding to a request coming from a client.
    RequestResponse(RequestResponse),
    /// `obs-websocket` is responding to a request batch coming from the client.
    RequestBatchResponse(RequestBatchResponse),
}

/// First message sent from the server immediately on client connection. Contains authentication
/// information if authentication is required, and the RPC version for version negotiation.
#[derive(Debug)]
pub struct Hello {
    /// Version of obs-websocket on the server.
    pub obs_web_socket_version: semver::Version,
    /// The RPC version that the server would like to use.
    pub rpc_version: u32,
    /// Present when the server requires authentication.
    pub authentication: Option<Authentication>,
}

/// The identify request was received and validated, and the connection is now ready for normal
/// operation.
#[derive(Clone, Copy, Debug, PartialEq, Eq, Structural)]
pub struct Identified {
    /// The RPC (remote procedure call) version to be used.
    pub negotiated_rpc_version: u32,
}

/// `obs-websocket` is responding to a request coming from a client.
#[derive(Debug)]
pub struct RequestResponse {
    /// The type of the request that this responds to.
    pub request_type: String,
    /// The id of the request, as decimal text.
    pub request_id: String,
    /// Whether the request succeeded, and why not.
    pub request_status: Status,
    /// The response payload; `null` when the server sent none.
    pub response_data: serde_json::Value,
}

/// `obs-websocket` is responding to a batch of requests.
#[derive(Debug)]
pub struct RequestBatchResponse {
    /// The id of the batch, as decimal text.
    pub request_id: String,
    /// The result of each request of the batch.
    pub results: Vec<serde_json::Value>,
}

/// The challenge and salt of a server that requires authentication.
#[derive(Debug)]
pub struct Authentication {
    /// Challenge string, combined with the secret into the authentication token.
    pub challenge: String,
    /// Salt, combined with the password into the secret.
    pub salt: String,
}

/// The outcome of a request.
#[derive(Debug)]
pub struct Status {
    /// Is true if the request resulted in [`StatusCode::Success`]. False if otherwise.
    pub result: bool,
    /// The status code of the outcome.
    pub code: StatusCode,
    /// May be provided by the server on errors to offer further details on why a request failed.
    pub comment: Option<String>,
}

/// Response value for the scene collection list.
#[derive(Debug)]
pub struct SceneCollections {
    /// The name of the current scene collection.
    pub current_scene_collection_name: String,
    /// Array of all available scene collections.
    pub scene_collections: Vec<String>,
}

/// Response value for the profile list.
#[derive(Debug)]
pub struct Profiles {
    /// The name of the current profile.
    pub current_profile_name: String,
    /// Array of all available profiles.
    pub profiles: Vec<String>,
}

/// Response value for a profile parameter.
#[derive(Debug)]
pub struct ProfileParameter {
    /// Value associated with the parameter.
    pub parameter_value: Option<String>,
    /// Default value associated with the parameter.
    pub default_parameter_value: Option<String>,
}

/// Response value for the video settings.
#[derive(Clone, Copy, Debug, PartialEq, Eq, Structural)]
pub struct VideoSettings {
    /// Numerator of the fractional FPS value.
    pub fps_numerator: u32,
    /// Denominator of the fractional FPS value.
    pub fps_denominator: u32,
    /// Width of the base (canvas) resolution in pixels.
    pub base_width: u32,
    /// Height of the base (canvas) resolution in pixels.
    pub base_height: u32,
    /// Width of the output resolution in pixels.
    pub output_width: u32,
    /// Height of the output resolution in pixels.
    pub output_height: u32,
}

/// Response value for the stream service settings.
#[derive(Debug)]
pub struct StreamServiceSettings<T> {
    /// Stream service type, like `rtmp_custom` or `rtmp_common`.
    pub stream_service_type: String,
    /// Stream service settings.
    pub stream_service_settings: T,
}

/// A filter of a source.
#[derive(Debug)]
pub struct SourceFilter {
    /// Whether the filter is enabled.
    pub filter_enabled: bool,
    /// Index of the filter in the list, beginning at 0.
    pub filter_index: u32,
    /// The kind of filter.
    pub filter_kind: String,
    /// Name of the filter.
    pub filter_name: String,
    /// Settings object associated with the filter.
    pub filter_settings: serde_json::Value,
}

/// An input source, as listed by the server.
#[derive(Debug)]
pub struct Input {
    /// Name of the input source.
    pub input_name: String,
    /// Versioned input kind.
    pub input_kind: String,
    /// Kind of input, without the version part.
    pub unversioned_input_kind: String,
}

/// Response value for the settings of an input.
#[derive(Debug)]
pub struct InputSettings<T> {
    /// Object of settings for the input.
    pub input_settings: T,
    /// The kind of the input.
    pub input_kind: String,
}

/// State of a media input.
#[derive(Clone, Copy, Debug, PartialEq, Eq, Structural)]
pub enum MediaState {
    /// No state.
    Idle,
    /// Media is playing.
    Playing,
    /// Opening file for replay.
    Opening,
    /// Buffering data for replay.
    Buffering,
    /// Media is paused.
    Paused,
    /// Media stopped.
    Stopped,
    /// All media in the play-list played.
    Ended,
    /// Error occurred while trying to play the media.
    Error,
    /// Unknown state.
    Unknown,
}

/// An item of a list property of an input.
#[derive(Debug)]
pub struct ListPropertyItem {
    /// Name of the item.
    pub item_name: String,
    /// Whether this item is enabled in the UI.
    pub item_enabled: bool,
    /// Content of the item, depending on what it represents.
    pub item_value: serde_json::Value,
}

/// An item of a scene or group.
#[derive(Debug)]
pub struct SceneItem {
    /// Identifier of the scene item.
    pub scene_item_id: i64,
    /// Positional index within a scene.
    pub scene_item_index: u32,
    /// Name of this source.
    pub source_name: String,
    /// The kind of source this item represents.
    pub source_type: SourceType,
    /// Kind of input. Only present if this is a [`SourceType::Input`].
    pub input_kind: Option<String>,
    /// Whether this item is a group. Only present if this is a [`SourceType::Scene`].
    pub is_group: Option<bool>,
}

/// Kind of source that is represented by a [`SceneItem`].
#[derive(Clone, Copy, Debug, PartialEq, Eq, Structural)]
pub enum SourceType {
    /// Input source from outside of OBS.
    Input,
    /// Filter applied to other items.
    Filter,
    /// Transition when switching scenes.
    Transition,
    /// Scene in OBS.
    Scene,
}

/// Response value for the scene list.
#[derive(Debug)]
pub struct Scenes {
    /// Current program scene.
    pub current_program_scene_name: Option<String>,
    /// Current preview scene. [`None`] if not in studio mode.
    pub current_preview_scene_name: Option<String>,
    /// Array of scenes in OBS.
    pub scenes: Vec<Scene>,
}

/// A scene, as part of [`Scenes`].
#[derive(Debug)]
pub struct Scene {
    /// Name of the scene.
    pub scene_name: String,
    /// Positional index in the list of scenes.
    pub scene_index: usize,
}

/// Response value for whether a source is active.
#[derive(Clone, Copy, Debug, PartialEq, Eq, Structural)]
pub struct SourceActive {
    /// Whether the source is showing in program.
    pub video_active: bool,
    /// Whether the source is showing in the UI (preview, projector, properties).
    pub video_showing: bool,
}

/// Response value for the scene transition list.
#[derive(Debug)]
pub struct SceneTransitionList {
    /// Name of the current scene transition.
    pub current_scene_transition_name: Option<String>,
    /// Kind of the current scene transition.
    pub current_scene_transition_kind: Option<String>,
    /// Array of transitions.
    pub transitions: Vec<Transition>,
}

/// A scene transition, as part of [`SceneTransitionList`].
#[derive(Debug)]
pub struct Transition {
    /// Name of the transition.
    pub transition_name: String,
    /// Kind of the transition.
    pub transition_kind: String,
    /// Whether the transition uses a fixed (non-configurable) duration.
    pub transition_fixed: bool,
    /// Whether the transition supports being configured.
    pub transition_configurable: bool,
}

/// A connected monitor.
#[derive(Debug)]
pub struct Monitor {
    /// Name of this monitor.
    pub monitor_name: String,
    /// Pixel width.
    pub monitor_width: u16,
    /// Pixel height.
    pub monitor_height: u16,
    /// Horizontal position on the screen.
    pub monitor_position_x: u16,
    /// Vertical position on the screen.
    pub monitor_position_y: u16,
}

} // verus!
