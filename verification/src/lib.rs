//! Client-side model of a streamed completion API: the payload types, the
//! decoder that cuts a byte stream into frames, and the state machines that
//! assemble a response from the decoded events.
pub mod aggregate;
pub mod complete;
pub mod decode;
pub mod error;
pub mod frame;
pub mod json;
pub mod replay;
pub mod request;
pub mod response;
pub mod stream;
pub mod types;

