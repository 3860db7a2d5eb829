//! Data types of the chat command layer: conversation turns, the request
//! shape handed in by the UI, the fragment shape pushed back out, and the
//! errors a chat call can end with.

use vstd::prelude::*;
use vstd::string::StringExecFns;

verus! {

/// Role tag of one conversation turn, as the daemon's chat API defines them.
#[derive(Clone, Copy, PartialEq, Eq, Structural, Debug)]
pub enum Role {
    System,
    User,
    Assistant,
    Tool,
}

/// One conversation turn: a role tag plus text content. Immutable once
/// constructed; an ordered sequence of turns forms a chat request.
#[derive(Clone, Debug)]
pub struct ChatMessage {
    pub role: Role,
    pub content: String,
}

/// A chat request from the UI: the model to run and the conversation so
/// far, in order. Whether the model name is known is decided by the daemon,
/// not here.
#[derive(Clone, Debug)]
pub struct ChatRequest {
    pub model: String,
    pub message: Vec<ChatMessage>,
}

/// One incremental unit of generated text, forwarded to the UI as soon as
/// the daemon produces it. Fragments are never buffered or merged.
#[derive(Clone, Debug)]
pub struct ChatResponse {
    pub message: String,
}

/// How a chat call can fail. Each variant carries the describing text of
/// the underlying failure; none is retried.
#[derive(Clone, Debug)]
pub enum ChatError {
    /// The stream could not be opened: daemon unreachable or the request
    /// rejected outright. No fragment was sent.
    StreamStart(String),
    /// The open stream failed mid-relay: transport or decode error.
    /// Fragments already forwarded stay visible to the UI.
    Stream(String),
    /// The UI event channel refused a fragment: the relay stops at once.
    Sink(String),
}

impl ChatError {
    /// The descriptive string surfaced to the caller for this error.
    pub open spec fn spec_message(self) -> Seq<char> {
        match self {
            ChatError::StreamStart(d) => "Failed to start chat stream: "@ + d@,
            ChatError::Stream(d) => "Stream error: "@ + d@,
            ChatError::Sink(d) => "Failed to send chat response: "@ + d@,
        }
    }

    /// Render the error as the human-readable string the command returns.
    pub fn message(&self) -> (r: String)
        ensures
            r@ == self.spec_message(),
    {
        match self {
            ChatError::StreamStart(d) => String::from_str("Failed to start chat stream: ").concat(
                d.as_str(),
            ),
            ChatError::Stream(d) => String::from_str("Stream error: ").concat(d.as_str()),
            ChatError::Sink(d) => String::from_str("Failed to send chat response: ").concat(
                d.as_str(),
            ),
        }
    }
}

} // verus!
