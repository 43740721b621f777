//! The reasons for which the gateway refuses or abandons a request.
use vstd::prelude::*;
use vstd::string::StringExecFns;

verus! {

/// Why the gateway refused or abandoned a request.
#[derive(Debug)]
pub enum GatewayError {
    /// No container's labels authorize the requested target and user.
    NotFound,
    /// The container engine reported a failure; the text is the engine's own.
    EngineError(String),
    /// An event arrived for a channel that is not in the state the event needs.
    ProtocolMisuse,
    /// The exec request's payload does not name a target.
    InvalidArguments,
}

/// The mathematical value of a `GatewayError`.
pub enum GatewayErrorView {
    NotFound,
    EngineError(Seq<char>),
    ProtocolMisuse,
    InvalidArguments,
}

impl View for GatewayError {
    type V = GatewayErrorView;

    open spec fn view(&self) -> GatewayErrorView {
        match self {
            GatewayError::NotFound => GatewayErrorView::NotFound,
            GatewayError::EngineError(text) => GatewayErrorView::EngineError(text@),
            GatewayError::ProtocolMisuse => GatewayErrorView::ProtocolMisuse,
            GatewayError::InvalidArguments => GatewayErrorView::InvalidArguments,
        }
    }
}

/// The text shown for each error; an engine failure shows the engine's text unchanged.
pub open spec fn error_text(e: GatewayErrorView) -> Seq<char> {
    match e {
        GatewayErrorView::NotFound => "No Available Container matches"@,
        GatewayErrorView::EngineError(text) => text,
        GatewayErrorView::ProtocolMisuse => "Client Not ready"@,
        GatewayErrorView::InvalidArguments => "Invalid exec request arguments"@,
    }
}

impl GatewayError {
    /// The text to report for this error.
    pub fn message(&self) -> (text: String)
        ensures
            text@ == error_text(self@),
    {
        match self {
            GatewayError::NotFound => String::from_str("No Available Container matches"),
            GatewayError::EngineError(text) => text.clone(),
            GatewayError::ProtocolMisuse => String::from_str("Client Not ready"),
            GatewayError::InvalidArguments => String::from_str("Invalid exec request arguments"),
        }
    }
}

} // verus!
