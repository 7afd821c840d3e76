use vstd::prelude::*;

verus! {

/// The status code gives information about the result of a request. It gives further insight into
/// what went wrong, if a request failed.
#[derive(Clone, Copy, Debug, PartialEq, Eq, Structural)]
pub enum StatusCode {
    /// Unknown status, should never be used.
    Unknown,
    /// For internal use to signify a successful field check.
    NoError,
    /// The request has succeeded.
    Success,
    /// The `requestType` field is missing from the request data.
    MissingRequestType,
    /// The request type is invalid or does not exist.
    UnknownRequestType,
    /// Generic error code. A comment is provided by obs-websocket.
    GenericError,
    /// The request batch execution type is not supported.
    UnsupportedRequestBatchExecutionType,
    /// A required request field is missing.
    MissingRequestField,
    /// The request does not have a valid `requestData` object.
    MissingRequestData,
    /// Generic invalid request field message. A comment is provided by obs-websocket.
    InvalidRequestField,
    /// A request field has the wrong data type.
    InvalidRequestFieldType,
    /// A request field (number) is outside the allowed range.
    RequestFieldOutOfRange,
    /// A request field (string or array) is empty and cannot be.
    RequestFieldEmpty,
    /// There are too many request fields.
    TooManyRequestFields,
    /// An output is running and cannot be in order to perform the request.
    OutputRunning,
    /// An output is not running and should be.
    OutputNotRunning,
    /// An output is paused and should not be.
    OutputPaused,
    /// An output is not paused and should be.
    OutputNotPaused,
    /// An output is disabled and should not be.
    OutputDisabled,
    /// Studio mode is active and cannot be.
    StudioModeActive,
    /// Studio mode is not active and should be.
    StudioModeNotActive,
    /// The resource was not found.
    ResourceNotFound,
    /// The resource already exists.
    ResourceAlreadyExists,
    /// The type of resource found is invalid.
    InvalidResourceType,
    /// There are not enough instances of the resource in order to perform the request.
    NotEnoughResources,
    /// The state of the resource is invalid.
    InvalidResourceState,
    /// The specified input had the wrong kind.
    InvalidInputKind,
    /// The resource does not support being configured.
    ResourceNotConfigurable,
    /// The specified filter had the wrong kind.
    InvalidFilterKind,
    /// Creating the resource failed.
    ResourceCreationFailed,
    /// Performing an action on the resource failed.
    ResourceActionFailed,
    /// Processing the request failed unexpectedly. A comment is provided by obs-websocket.
    RequestProcessingFailed,
    /// The combination of request fields cannot be used to perform an action.
    CannotAct,
}

/// The wire value of each status code.
pub open spec fn status_code_value(c: StatusCode) -> u16 {
    match c {
        StatusCode::Unknown => 0,
        StatusCode::NoError => 10,
        StatusCode::Success => 100,
        StatusCode::MissingRequestType => 203,
        StatusCode::UnknownRequestType => 204,
        StatusCode::GenericError => 205,
        StatusCode::UnsupportedRequestBatchExecutionType => 206,
        StatusCode::MissingRequestField => 300,
        StatusCode::MissingRequestData => 301,
        StatusCode::InvalidRequestField => 400,
        StatusCode::InvalidRequestFieldType => 401,
        StatusCode::RequestFieldOutOfRange => 402,
        StatusCode::RequestFieldEmpty => 403,
        StatusCode::TooManyRequestFields => 404,
        StatusCode::OutputRunning => 500,
        StatusCode::OutputNotRunning => 501,
        StatusCode::OutputPaused => 502,
        StatusCode::OutputNotPaused => 503,
        StatusCode::OutputDisabled => 504,
        StatusCode::StudioModeActive => 505,
        StatusCode::StudioModeNotActive => 506,
        StatusCode::ResourceNotFound => 600,
        StatusCode::ResourceAlreadyExists => 601,
        StatusCode::InvalidResourceType => 602,
        StatusCode::NotEnoughResources => 603,
        StatusCode::InvalidResourceState => 604,
        StatusCode::InvalidInputKind => 605,
        StatusCode::ResourceNotConfigurable => 606,
        StatusCode::InvalidFilterKind => 607,
        StatusCode::ResourceCreationFailed => 700,
        StatusCode::ResourceActionFailed => 701,
        StatusCode::RequestProcessingFailed => 702,
        StatusCode::CannotAct => 703,
    }
}

/// Whether `v` is the wire value of some status code.
pub open spec fn is_status_code_value(v: u16) -> bool {
    v == 0
        || v == 10
        || v == 100
        || v == 203
        || v == 204
        || v == 205
        || v == 206
        || v == 300
        || v == 301
        || v == 400
        || v == 401
        || v == 402
        || v == 403
        || v == 404
        || v == 500
        || v == 501
        || v == 502
        || v == 503
        || v == 504
        || v == 505
        || v == 506
        || v == 600
        || v == 601
        || v == 602
        || v == 603
        || v == 604
        || v == 605
        || v == 606
        || v == 607
        || v == 700
        || v == 701
        || v == 702
        || v == 703
}

impl StatusCode {
    /// The numeric code of this status on the wire.
    pub fn code(&self) -> (r: u16)
        ensures
            r == status_code_value(*self),
    {
        match self {
            StatusCode::Unknown => 0,
            StatusCode::NoError => 10,
            StatusCode::Success => 100,
            StatusCode::MissingRequestType => 203,
            StatusCode::UnknownRequestType => 204,
            StatusCode::GenericError => 205,
            StatusCode::UnsupportedRequestBatchExecutionType => 206,
            StatusCode::MissingRequestField => 300,
            StatusCode::MissingRequestData => 301,
            StatusCode::InvalidRequestField => 400,
            StatusCode::InvalidRequestFieldType => 401,
            StatusCode::RequestFieldOutOfRange => 402,
            StatusCode::RequestFieldEmpty => 403,
            StatusCode::TooManyRequestFields => 404,
            StatusCode::OutputRunning => 500,
            StatusCode::OutputNotRunning => 501,
            StatusCode::OutputPaused => 502,
            StatusCode::OutputNotPaused => 503,
            StatusCode::OutputDisabled => 504,
            StatusCode::StudioModeActive => 505,
            StatusCode::StudioModeNotActive => 506,
            StatusCode::ResourceNotFound => 600,
            StatusCode::ResourceAlreadyExists => 601,
            StatusCode::InvalidResourceType => 602,
            StatusCode::NotEnoughResources => 603,
            StatusCode::InvalidResourceState => 604,
            StatusCode::InvalidInputKind => 605,
            StatusCode::ResourceNotConfigurable => 606,
            StatusCode::InvalidFilterKind => 607,
            StatusCode::ResourceCreationFailed => 700,
            StatusCode::ResourceActionFailed => 701,
            StatusCode::RequestProcessingFailed => 702,
            StatusCode::CannotAct => 703,
        }
    }

    /// Interprets a numeric status code; `None` for a code that the protocol does not define.
    pub fn from_code(v: u16) -> (r: Option<StatusCode>)
        ensures
            r.is_some() <==> is_status_code_value(v),
            r matches Some(c) ==> status_code_value(c) == v,
    {
        match v {
            0 => Some(StatusCode::Unknown),
            10 => Some(StatusCode::NoError),
            100 => Some(StatusCode::Success),
            203 => Some(StatusCode::MissingRequestType),
            204 => Some(StatusCode::UnknownRequestType),
            205 => Some(StatusCode::GenericError),
            206 => Some(StatusCode::UnsupportedRequestBatchExecutionType),
            300 => Some(StatusCode::MissingRequestField),
            301 => Some(StatusCode::MissingRequestData),
            400 => Some(StatusCode::InvalidRequestField),
            401 => Some(StatusCode::InvalidRequestFieldType),
            402 => Some(StatusCode::RequestFieldOutOfRange),
            403 => Some(StatusCode::RequestFieldEmpty),
            404 => Some(StatusCode::TooManyRequestFields),
            500 => Some(StatusCode::OutputRunning),
            501 => Some(StatusCode::OutputNotRunning),
            502 => Some(StatusCode::OutputPaused),
            503 => Some(StatusCode::OutputNotPaused),
            504 => Some(StatusCode::OutputDisabled),
            505 => Some(StatusCode::StudioModeActive),
            506 => Some(StatusCode::StudioModeNotActive),
            600 => Some(StatusCode::ResourceNotFound),
            601 => Some(StatusCode::ResourceAlreadyExists),
            602 => Some(StatusCode::InvalidResourceType),
            603 => Some(StatusCode::NotEnoughResources),
            604 => Some(StatusCode::InvalidResourceState),
            605 => Some(StatusCode::InvalidInputKind),
            606 => Some(StatusCode::ResourceNotConfigurable),
            607 => Some(StatusCode::InvalidFilterKind),
            700 => Some(StatusCode::ResourceCreationFailed),
            701 => Some(StatusCode::ResourceActionFailed),
            702 => Some(StatusCode::RequestProcessingFailed),
            703 => Some(StatusCode::CannotAct),
            _ => None,
        }
    }
}

} // verus!
