//! Requests a client sends and events the broker streams back.

use vstd::prelude::*;

verus! {

/// A structured tool-invocation request, delivered through a session's event mailbox.
#[derive(Debug, Clone, Default, PartialEq, Eq)]
pub struct McpRequest {
    pub connection_id: String,
    pub command: String,
    pub mcp_route: String,
    pub mcp_route_id: String,
}

/// A tool's answer to an `McpRequest`.
#[derive(Debug, Clone, Default, PartialEq, Eq)]
pub struct McpResponse {
    pub connection_id: String,
    pub response: String,
    pub mcp_route: String,
    pub mcp_route_id: String,
}

/// A prompt request: an optional session to resume and an optional message
/// for a producer to answer.
#[derive(Debug, Clone, Default, PartialEq, Eq)]
pub struct Prompt {
    pub connection_id: Option<u128>,
    pub prompt: Option<String>,
}

/// One outbound event. `Connection` always comes first on a stream.
#[derive(Debug, Clone, PartialEq, Eq)]
pub enum PromptResponse {
    Connection(u128),
    PromptResponse(String),
    McpRequest(McpRequest),
}

} // verus!
