//! A session-oriented message broker: bounded mailboxes, a registry of
//! sessions, and the multiplexer that merges a session's mailboxes into one
//! ordered stream of outbound events.

mod broker;
mod config;
mod events;
pub mod halo;
mod handlers;
mod llm_client;
mod mailbox;
mod multiplex;
mod producer;
mod tool;

pub use broker::{
    is_random_id, may_collide, poll_outcome, resolve_outcome, Broker, SessionError, SessionPoll, SessionView,
};
pub use config::LogLevel;
pub use events::{McpRequest, McpResponse, Prompt, PromptResponse};
pub use handlers::{
    input, mcp_response, metrics, prompt, resolve_session, search, status, Auth, HandlerError,
    Input, Metrics, PromptPlan, PromptType, QueryType, Search, SearchResults, ServiceAuth, Status,
};
pub use llm_client::{
    client_settings, ClientSettings, LLMBackend, LLMClientOptions, LLMClientParams,
    LLMClientType, ReasoningEffort, ReasoningOptions,
};
pub use mailbox::{
    lemma_backpressure, lemma_fifo, lemma_fifo_batch, lemma_receives_drain, lemma_replay_append,
    lemma_sends_accepted, receives, replay, sends, BrokerPipe, MailboxOp, MailboxTrace, MailboxView,
    SendError, CHANNEL_SIZE, TIMEOUT_MILLIS,
};
pub use multiplex::{
    as_response, deliver_all, drain_steps, lemma_connection_first, lemma_deliver_all, lemma_drain,
    lemma_echo_run, lemma_expiry, lemma_resume, lemma_resume_all, mux_step, MuxAction, MuxState,
    Multiplexer,
};
pub use producer::{
    deliver, delivery_of, producer_choice, producer_for, prompt_send_outcome, Delivery,
    ProducerKind, PromptRepeaterClient,
};
pub use tool::{
    name_argument, required_names, test_tool_catalog, test_tool_list, tool_catalog, tool_list,
    ToolArgument, ToolFunction, ToolList,
};
