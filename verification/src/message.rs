//! The message vocabulary shared with chat-style collaborators. Only the
//! role tag lives here: a full chat message carries free-form JSON
//! payloads and serializer derives, which belong with the input/output
//! shell around this library, as does the chat client itself.

use vstd::prelude::*;

verus! {

/// The role of a message in a conversation.
#[derive(Debug, Clone, PartialEq, Eq, Structural)]
pub enum MessageType {
    /// A message written by the user.
    Human,
    /// A message produced by the model.
    AI,
    /// A system prompt.
    System,
    /// The result of a tool invocation.
    Tool,
}

} // verus!
