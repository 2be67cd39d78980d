//! Backend producers: what fills a session's response mailbox.

use vstd::prelude::*;

use crate::broker::{Broker, SessionView};
use crate::handlers::QueryType;
use crate::mailbox::{MailboxView, SendError};

verus! {

/// The backends that can answer a prompt.
#[derive(Debug, Clone, Copy, PartialEq, Eq, Structural)]
pub enum ProducerKind {
    /// Echoes the prompt into the response mailbox, over and over.
    Repeat,
    /// Relays the tokens of a text-generation service as they arrive.
    Relay,
}

/// The backend `producer_for` picks.
pub open spec fn producer_choice(query: Option<QueryType>, llm_configured: bool) -> ProducerKind {
    if query is Some || !llm_configured {
        ProducerKind::Repeat
    } else {
        ProducerKind::Relay
    }
}

/// Picks the backend for a prompt: an explicit `repeat_prompt` query asks for
/// the echo backend; otherwise the relay is used when a text-generation
/// client is configured, and the echo backend when none is.
pub fn producer_for(query: Option<QueryType>, llm_configured: bool) -> (r: ProducerKind)
    ensures
        r == producer_choice(query, llm_configured),
{
    match query {
        Some(QueryType::RepeatPrompt) => ProducerKind::Repeat,
        None => if llm_configured {
            ProducerKind::Relay
        } else {
            ProducerKind::Repeat
        },
    }
}

/// What a producer does after one attempt to hand a message over.
#[derive(Debug)]
pub enum Delivery {
    /// The message is in the mailbox.
    Delivered,
    /// The mailbox is full: wait, then offer this message again.
    Retry(String),
    /// The session is closed or gone: the producer ends.
    Stop,
}

/// What `deliver` answers to the outcome of a send.
pub open spec fn delivery_of(r: Result<(), SendError<String>>) -> Delivery {
    match r {
        Ok(()) => Delivery::Delivered,
        Err(SendError::Full(m)) => Delivery::Retry(m),
        Err(SendError::Closed(_)) => Delivery::Stop,
    }
}

/// What sending `msg` at `now` into the response mailbox of session `id`
/// does to the registry `m`, and what it returns.
pub open spec fn prompt_send_outcome(m: Map<u128, SessionView>, id: u128, msg: String, now: int) -> (
    Result<(), SendError<String>>,
    Map<u128, SessionView>,
) {
    if m.contains_key(id) {
        let (res, p) = m[id].prompt.send_outcome(msg, now);
        (res, m.insert(id, SessionView { prompt: p, ..m[id] }))
    } else {
        (Err(SendError::Closed(msg)), m)
    }
}

/// Offers `msg` to the response mailbox of session `id` at `now`. A full
/// mailbox hands the message back to be offered again: nothing is dropped.
pub fn deliver(broker: &mut Broker, id: u128, msg: String, now: u64) -> (r: Delivery)
    requires
        old(broker).wf(),
    ensures
        final(broker).wf(),
        ({
            let (res, m) = prompt_send_outcome(old(broker)@, id, msg, now as int);
            r == delivery_of(res) && final(broker)@ == m
        }),
{
    match broker.send_prompt(id, msg, now) {
        Ok(()) => Delivery::Delivered,
        Err(SendError::Full(m)) => Delivery::Retry(m),
        Err(SendError::Closed(_)) => Delivery::Stop,
    }
}

/// The echo backend, used to exercise the broker without a real service.
#[derive(Debug, Clone, Copy, Default)]
pub struct PromptRepeaterClient;

impl PromptRepeaterClient {
    /// One beat of the echo: offers a copy of `msg` to session `id` at `now`.
    pub fn prompt(&self, broker: &mut Broker, id: u128, msg: &String, now: u64) -> (r: Delivery)
        requires
            old(broker).wf(),
        ensures
            final(broker).wf(),
            ({
                let (res, m) = prompt_send_outcome(old(broker)@, id, *msg, now as int);
                r == delivery_of(res) && final(broker)@ == m
            }),
    {
        deliver(broker, id, msg.clone(), now)
    }
}

} // verus!
