//! The typed failures that a stream can end with.
use vstd::prelude::*;
use crate::types::{StreamError, StreamErrorView};

verus! {

/// Why a stream ended abnormally.
#[derive(Debug, PartialEq, Eq)]
pub enum StreamFailure {
    /// The underlying byte source failed.
    TransportFailure { detail: String },
    /// The stream ended in the middle of a frame or of a response.
    Truncated,
    /// A frame's payload matched no known event; `raw` is the payload.
    MalformedEvent { raw: Vec<u8> },
    /// An event arrived in a state in which it is not legal.
    ProtocolViolation,
    /// The server sent an explicit error frame.
    RemoteError { error: StreamError },
}

/// Mathematical value of a [`StreamFailure`].
pub enum StreamFailureView {
    TransportFailure { detail: Seq<char> },
    Truncated,
    MalformedEvent { raw: Seq<u8> },
    ProtocolViolation,
    RemoteError { error: StreamErrorView },
}

impl View for StreamFailure {
    type V = StreamFailureView;

    open spec fn view(&self) -> StreamFailureView {
        match self {
            StreamFailure::TransportFailure { detail } => StreamFailureView::TransportFailure {
                detail: detail@,
            },
            StreamFailure::Truncated => StreamFailureView::Truncated,
            StreamFailure::MalformedEvent { raw } => StreamFailureView::MalformedEvent { raw: raw@ },
            StreamFailure::ProtocolViolation => StreamFailureView::ProtocolViolation,
            StreamFailure::RemoteError { error } => StreamFailureView::RemoteError { error: error@ },
        }
    }
}

} // verus!
