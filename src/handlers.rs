//! The request-facing operations: authorisation, session resolution, and
//! what a prompt request sets in motion.

use vstd::prelude::*;

use crate::broker::{may_collide, resolve_outcome, Broker, SessionError, SessionView};
use crate::events::{McpResponse, Prompt};
use crate::multiplex::{MuxState, Multiplexer};
use crate::producer::{producer_choice, producer_for, ProducerKind};

verus! {

/// Whether the caller of a user-facing endpoint is authenticated.
#[derive(Debug, Clone, Copy, Default)]
pub struct Auth(pub bool);

/// Whether the caller of a service endpoint is authenticated.
#[derive(Debug, Clone, Copy, Default)]
pub struct ServiceAuth(pub bool);

/// The query of a prompt request.
#[derive(Debug, Clone, Copy, PartialEq, Eq, Structural)]
pub struct PromptType {
    pub query_type: QueryType,
}

/// Which backend a prompt request asks for.
#[derive(Debug, Clone, Copy, PartialEq, Eq, Structural)]
pub enum QueryType {
    RepeatPrompt,
}

/// A search request.
#[derive(Debug, Clone, Default, PartialEq, Eq)]
pub struct Search {
    pub input: String,
}

/// What a search found.
#[derive(Debug, Clone, Default, PartialEq, Eq)]
pub struct SearchResults {
    pub results: Vec<String>,
}

/// A user input.
#[derive(Debug, Clone, Default, PartialEq, Eq)]
pub struct Input {
    pub input: String,
}

/// Service metrics.
#[derive(Debug, Clone, Copy, Default, PartialEq, Eq)]
pub struct Metrics {}

/// Service status.
#[derive(Debug, Clone, Copy, Default, PartialEq, Eq)]
pub struct Status {}

/// Why a request failed.
#[derive(Debug, Clone, Copy, PartialEq, Eq, Structural)]
pub enum HandlerError {
    Unauthenticated,
    Session(SessionError),
}

impl HandlerError {
    /// The message shown to the client.
    pub fn message(&self) -> (r: &'static str)
        ensures
            r@ == match self {
                HandlerError::Unauthenticated => "unauthenticated"@,
                HandlerError::Session(SessionError::StreamClosed) => "stream closed"@,
                HandlerError::Session(SessionError::IdInUse) => "session id in use"@,
            },
    {
        match self {
            HandlerError::Unauthenticated => "unauthenticated",
            HandlerError::Session(SessionError::StreamClosed) => "stream closed",
            HandlerError::Session(SessionError::IdInUse) => "session id in use",
        }
    }
}

/// Finds the session a request names, or creates one when it names none.
/// A named session must be live: an expired or unknown id is `StreamClosed`.
pub fn resolve_session(broker: &mut Broker, id: Option<u128>, now: u64) -> (r: Result<
    u128,
    SessionError,
>)
    requires
        old(broker).wf(),
    ensures
        final(broker).wf(),
        match id {
            Some(i) => r == resolve_outcome(old(broker)@, i) && final(broker)@ == old(broker)@,
            None => match r {
                Ok(n) => !old(broker)@.contains_key(n) && final(broker)@ == old(broker)@.insert(
                    n,
                    SessionView::fresh(now as int),
                ),
                Err(e) => e == SessionError::IdInUse && final(broker)@ == old(broker)@
                    && may_collide(old(broker)@),
            },
        },
{
    match id {
        Some(i) => if broker.contains(i) {
            Ok(i)
        } else {
            Err(SessionError::StreamClosed)
        },
        None => broker.create(now),
    }
}

/// What a prompt request sets in motion: the multiplexer that streams the
/// session, and, when the request carries a message, the backend to answer it.
#[derive(Debug)]
pub struct PromptPlan {
    pub multiplexer: Multiplexer,
    pub producer: Option<(ProducerKind, String)>,
}

/// Handles a prompt request at `now`: checks the caller, resolves or creates
/// the session, and plans the multiplexer and, for a message, its producer.
pub fn prompt(
    auth: &Auth,
    broker: &mut Broker,
    req: Prompt,
    query: Option<QueryType>,
    llm_configured: bool,
    now: u64,
) -> (r: Result<PromptPlan, HandlerError>)
    requires
        old(broker).wf(),
    ensures
        final(broker).wf(),
        auth.0 && req.connection_id is Some && old(broker)@.contains_key(
            req.connection_id->Some_0,
        ) ==> r is Ok,
        auth.0 && req.connection_id is None && !may_collide(old(broker)@) ==> r is Ok,
        match r {
            Ok(plan) => {
                &&& auth.0
                &&& plan.multiplexer.state == MuxState::Starting
                &&& plan.producer == match req.prompt {
                    Some(msg) => Some((producer_choice(query, llm_configured), msg)),
                    None => None,
                }
                &&& match req.connection_id {
                    Some(id) => plan.multiplexer.id == id && old(broker)@.contains_key(id)
                        && final(broker)@ == old(broker)@,
                    None => !old(broker)@.contains_key(plan.multiplexer.id) && final(broker)@
                        == old(broker)@.insert(plan.multiplexer.id, SessionView::fresh(now as int)),
                }
            },
            Err(e) => {
                &&& final(broker)@ == old(broker)@
                &&& !auth.0 ==> e == HandlerError::Unauthenticated
                &&& auth.0 ==> match req.connection_id {
                    Some(id) => !old(broker)@.contains_key(id) && e == HandlerError::Session(
                        SessionError::StreamClosed,
                    ),
                    None => e == HandlerError::Session(SessionError::IdInUse) && may_collide(
                        old(broker)@,
                    ),
                }
            },
        },
{
    if !auth.0 {
        return Err(HandlerError::Unauthenticated);
    }
    match resolve_session(broker, req.connection_id, now) {
        Err(e) => Err(HandlerError::Session(e)),
        Ok(id) => {
            let producer = match req.prompt {
                Some(msg) => Some((producer_for(query, llm_configured), msg)),
                None => None,
            };
            Ok(PromptPlan { multiplexer: Multiplexer::new(id), producer })
        },
    }
}

/// Accepts a tool's answer from an authenticated caller.
pub fn mcp_response(auth: &Auth, response: &McpResponse) -> (r: Result<(), HandlerError>)
    ensures
        r == if auth.0 {
            Ok::<(), HandlerError>(())
        } else {
            Err(HandlerError::Unauthenticated)
        },
{
    if !auth.0 {
        return Err(HandlerError::Unauthenticated);
    }
    Ok(())
}

/// Searches for an authenticated caller; nothing is indexed, so no result is found.
pub fn search(auth: &Auth, query: &Search) -> (r: Result<SearchResults, HandlerError>)
    ensures
        auth.0 <==> r is Ok,
        !auth.0 ==> r == Err::<SearchResults, HandlerError>(HandlerError::Unauthenticated),
        r matches Ok(s) ==> s.results@.len() == 0,
{
    if !auth.0 {
        return Err(HandlerError::Unauthenticated);
    }
    Ok(SearchResults { results: Vec::new() })
}

/// Accepts an input from an authenticated caller.
pub fn input(auth: &Auth, given: &Input) -> (r: Result<bool, HandlerError>)
    ensures
        r == if auth.0 {
            Ok::<bool, HandlerError>(true)
        } else {
            Err(HandlerError::Unauthenticated)
        },
{
    if !auth.0 {
        return Err(HandlerError::Unauthenticated);
    }
    Ok(true)
}

/// Service metrics, for an authenticated service caller.
pub fn metrics(auth: &ServiceAuth) -> (r: Result<Metrics, HandlerError>)
    ensures
        r == if auth.0 {
            Ok::<Metrics, HandlerError>(Metrics {  })
        } else {
            Err(HandlerError::Unauthenticated)
        },
{
    if !auth.0 {
        return Err(HandlerError::Unauthenticated);
    }
    Ok(Metrics {  })
}

/// Service status, for an authenticated service caller.
pub fn status(auth: &ServiceAuth) -> (r: Result<Status, HandlerError>)
    ensures
        r == if auth.0 {
            Ok::<Status, HandlerError>(Status {  })
        } else {
            Err(HandlerError::Unauthenticated)
        },
{
    if !auth.0 {
        return Err(HandlerError::Unauthenticated);
    }
    Ok(Status {  })
}

} // verus!
