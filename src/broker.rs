//! The session registry: each session id owns a response mailbox and an
//! event mailbox, created and removed together.

use std::collections::HashMap;
use vstd::prelude::*;

use crate::events::{McpRequest, PromptResponse};
use crate::mailbox::{BrokerPipe, MailboxView, SendError, CHANNEL_SIZE, TIMEOUT_MILLIS};

verus! {

broadcast use vstd::std_specs::hash::group_hash_axioms;

/// The abstract state of one session: its two mailboxes.
pub ghost struct SessionView {
    pub prompt: MailboxView<String>,
    pub mcp: MailboxView<McpRequest>,
}

impl SessionView {
    /// Both mailboxes empty, open and last used at `now`.
    pub open spec fn fresh(now: int) -> SessionView {
        SessionView { prompt: MailboxView::fresh(now), mcp: MailboxView::fresh(now) }
    }

    pub open spec fn wf(self) -> bool {
        self.prompt.messages.len() <= CHANNEL_SIZE && self.mcp.messages.len() <= CHANNEL_SIZE
    }

    /// Either mailbox has been idle for longer than the inactivity window.
    pub open spec fn expired(self, now: int) -> bool {
        self.prompt.expired(now, TIMEOUT_MILLIS as int) || self.mcp.expired(
            now,
            TIMEOUT_MILLIS as int,
        )
    }
}

/// Why a session could not be opened.
#[derive(Debug, Clone, Copy, PartialEq, Eq, Structural)]
pub enum SessionError {
    /// The drawn id already names a session.
    IdInUse,
    /// The session does not exist, or has expired.
    StreamClosed,
}

/// What one poll of a session found.
#[derive(Debug)]
pub enum SessionPoll {
    /// No session has this id.
    Missing,
    /// The session was idle too long and has been removed.
    Expired,
    /// A message taken from one of the mailboxes, tagged by origin.
    Event(PromptResponse),
    /// Nothing is waiting.
    Idle,
}

/// What a poll of session `id` at `now` yields, and the registry after it.
/// A missing session changes nothing; an expired one is removed; otherwise the
/// event mailbox is drained before the response mailbox.
pub open spec fn poll_outcome(m: Map<u128, SessionView>, id: u128, now: int) -> (
    SessionPoll,
    Map<u128, SessionView>,
) {
    if !m.contains_key(id) {
        (SessionPoll::Missing, m)
    } else if m[id].expired(now) {
        (SessionPoll::Expired, m.remove(id))
    } else if m[id].mcp.messages.len() > 0 {
        (
            SessionPoll::Event(PromptResponse::McpRequest(m[id].mcp.messages[0])),
            m.insert(id, SessionView { mcp: m[id].mcp.after_receive(now), ..m[id] }),
        )
    } else if m[id].prompt.messages.len() > 0 {
        (
            SessionPoll::Event(PromptResponse::PromptResponse(m[id].prompt.messages[0])),
            m.insert(id, SessionView { prompt: m[id].prompt.after_receive(now), ..m[id] }),
        )
    } else {
        (SessionPoll::Idle, m)
    }
}

/// Resolving a request's session: a given id must name a live session.
pub open spec fn resolve_outcome(m: Map<u128, SessionView>, id: u128) -> Result<u128, SessionError> {
    if m.contains_key(id) {
        Ok(id)
    } else {
        Err(SessionError::StreamClosed)
    }
}

struct SessionEntry {
    prompt: BrokerPipe<String>,
    mcp: BrokerPipe<McpRequest>,
}

impl SessionEntry {
    spec fn view(&self) -> SessionView {
        SessionView { prompt: self.prompt@, mcp: self.mcp@ }
    }
}

/// The shape of every randomly drawn id: a version 4 UUID, whose version
/// field (bits 76 to 79) reads 4 and whose variant field (bits 62 and 63) reads
/// binary 10.
pub open spec fn is_random_id(k: u128) -> bool {
    (k >> 76u128) & 0xfu128 == 4u128 && (k >> 62u128) & 0x3u128 == 2u128
}

/// Whether a drawn id could collide with a live session of `m`: only when
/// some live id has the shape of a drawn one.
pub open spec fn may_collide(m: Map<u128, SessionView>) -> bool {
    exists|k: u128| #[trigger] m.contains_key(k) && is_random_id(k)
}

/// Relies on uuid::Uuid::new_v4 for a random 128-bit session id: whatever was
/// drawn, the result is a version 4 UUID of the RFC 4122 variant.
#[verifier::external_body]
fn new_session_id() -> (r: u128)
    ensures
        is_random_id(r),
{
    uuid::Uuid::new_v4().as_u128()
}

/// The registry of live sessions.
pub struct Broker {
    sessions: HashMap<u128, SessionEntry>,
}

impl View for Broker {
    type V = Map<u128, SessionView>;

    closed spec fn view(&self) -> Map<u128, SessionView> {
        self.sessions@.map_values(|e: SessionEntry| e.view())
    }
}

impl Broker {
    /// Every session's mailboxes stay within capacity.
    pub open spec fn wf(&self) -> bool {
        forall|k: u128| #[trigger] self@.contains_key(k) ==> self@[k].wf()
    }

    /// An empty registry.
    pub fn new() -> (r: Broker)
        ensures
            r.wf(),
            r@ == Map::<u128, SessionView>::empty(),
    {
        let r = Broker { sessions: HashMap::new() };
        assert(r@ =~= Map::<u128, SessionView>::empty());
        r
    }

    /// Adds a fresh session under `id`, unless `id` is taken.
    pub fn insert_session(&mut self, id: u128, now: u64) -> (r: Result<u128, SessionError>)
        requires
            old(self).wf(),
        ensures
            final(self).wf(),
            old(self)@.contains_key(id) ==> r == Err::<u128, SessionError>(SessionError::IdInUse)
                && final(self)@ == old(self)@,
            !old(self)@.contains_key(id) ==> r == Ok::<u128, SessionError>(id) && final(self)@
                == old(self)@.insert(id, SessionView::fresh(now as int)),
    {
        if self.sessions.contains_key(&id) {
            return Err(SessionError::IdInUse);
        }
        let entry = SessionEntry { prompt: BrokerPipe::new(now), mcp: BrokerPipe::new(now) };
        self.sessions.insert(id, entry);
        assert(self@ =~= old(self)@.insert(id, SessionView::fresh(now as int)));
        Ok(id)
    }

    /// Creates a session under a freshly drawn random id, at time `now`.
    /// The id is unique: should the draw collide with a live session, nothing
    /// changes and `IdInUse` is returned. That can only happen when some live
    /// id has the shape of a drawn one; on an empty registry creation succeeds.
    pub fn create(&mut self, now: u64) -> (r: Result<u128, SessionError>)
        requires
            old(self).wf(),
        ensures
            final(self).wf(),
            r is Err ==> may_collide(old(self)@),
            old(self)@ == Map::<u128, SessionView>::empty() ==> r is Ok,
            r matches Ok(id) ==> is_random_id(id),
            match r {
                Ok(id) => !old(self)@.contains_key(id) && final(self)@ == old(self)@.insert(
                    id,
                    SessionView::fresh(now as int),
                ),
                Err(e) => e == SessionError::IdInUse && final(self)@ == old(self)@,
            },
    {
        let id = new_session_id();
        let r = self.insert_session(id, now);
        proof {
            if r is Err {
                assert(old(self)@.contains_key(id) && is_random_id(id));
            }
        }
        r
    }

    /// The response mailbox of session `id`.
    pub fn get_prompt(&self, id: u128) -> (r: Option<&BrokerPipe<String>>)
        ensures
            match r {
                Some(p) => self@.contains_key(id) && p@ == self@[id].prompt,
                None => !self@.contains_key(id),
            },
    {
        match self.sessions.get(&id) {
            Some(e) => Some(&e.prompt),
            None => None,
        }
    }

    /// The event mailbox of session `id`.
    pub fn get_mcp(&self, id: u128) -> (r: Option<&BrokerPipe<McpRequest>>)
        ensures
            match r {
                Some(p) => self@.contains_key(id) && p@ == self@[id].mcp,
                None => !self@.contains_key(id),
            },
    {
        match self.sessions.get(&id) {
            Some(e) => Some(&e.mcp),
            None => None,
        }
    }

    /// Removes session `id`, if it is there.
    pub fn expire(&mut self, id: u128)
        requires
            old(self).wf(),
        ensures
            final(self).wf(),
            final(self)@ == old(self)@.remove(id),
    {
        self.sessions.remove(&id);
        assert(self@ =~= old(self)@.remove(id));
        assert forall|k: u128| #[trigger] self@.contains_key(k) implies self@[k].wf() by {
            assert(old(self)@.contains_key(k));
        }
    }

    /// Enqueues `msg` into the response mailbox of session `id` at `now`.
    /// A missing session answers like a closed mailbox.
    pub fn send_prompt(&mut self, id: u128, msg: String, now: u64) -> (r: Result<
        (),
        SendError<String>,
    >)
        requires
            old(self).wf(),
        ensures
            final(self).wf(),
            !old(self)@.contains_key(id) ==> r == Err::<(), SendError<String>>(
                SendError::Closed(msg),
            ) && final(self)@ == old(self)@,
            old(self)@.contains_key(id) ==> ({
                let (res, p) = old(self)@[id].prompt.send_outcome(msg, now as int);
                r == res && final(self)@ == old(self)@.insert(
                    id,
                    SessionView { prompt: p, ..old(self)@[id] },
                )
            }),
    {
        match self.sessions.remove(&id) {
            None => {
                assert(self.sessions@ =~= old(self).sessions@);
                Err(SendError::Closed(msg))
            },
            Some(mut e) => {
                assert(old(self)@.contains_key(id) && e.view() == old(self)@[id]);
                assert(old(self)@[id].wf());
                let r = e.prompt.send_message(msg, now);
                self.sessions.insert(id, e);
                assert(self@ =~= old(self)@.insert(id, e.view()));
                assert forall|k: u128| #[trigger] self@.contains_key(k) implies self@[k].wf() by {
                    if k != id {
                        assert(old(self)@.contains_key(k));
                    }
                }
                r
            },
        }
    }

    /// Enqueues `msg` into the event mailbox of session `id` at `now`.
    /// A missing session answers like a closed mailbox.
    pub fn send_mcp(&mut self, id: u128, msg: McpRequest, now: u64) -> (r: Result<
        (),
        SendError<McpRequest>,
    >)
        requires
            old(self).wf(),
        ensures
            final(self).wf(),
            !old(self)@.contains_key(id) ==> r == Err::<(), SendError<McpRequest>>(
                SendError::Closed(msg),
            ) && final(self)@ == old(self)@,
            old(self)@.contains_key(id) ==> ({
                let (res, q) = old(self)@[id].mcp.send_outcome(msg, now as int);
                r == res && final(self)@ == old(self)@.insert(
                    id,
                    SessionView { mcp: q, ..old(self)@[id] },
                )
            }),
    {
        match self.sessions.remove(&id) {
            None => {
                assert(self.sessions@ =~= old(self).sessions@);
                Err(SendError::Closed(msg))
            },
            Some(mut e) => {
                assert(old(self)@.contains_key(id) && e.view() == old(self)@[id]);
                assert(old(self)@[id].wf());
                let r = e.mcp.send_message(msg, now);
                self.sessions.insert(id, e);
                assert(self@ =~= old(self)@.insert(id, e.view()));
                assert forall|k: u128| #[trigger] self@.contains_key(k) implies self@[k].wf() by {
                    if k != id {
                        assert(old(self)@.contains_key(k));
                    }
                }
                r
            },
        }
    }

    /// One poll of session `id` at `now`: removes it when either mailbox has
    /// been idle too long, else takes the next waiting message, event
    /// mailbox first.
    pub fn poll_session(&mut self, id: u128, now: u64) -> (r: SessionPoll)
        requires
            old(self).wf(),
        ensures
            final(self).wf(),
            (r, final(self)@) == poll_outcome(old(self)@, id, now as int),
    {
        match self.sessions.remove(&id) {
            None => {
                assert(self.sessions@ =~= old(self).sessions@);
                SessionPoll::Missing
            },
            Some(mut e) => {
                assert(old(self)@.contains_key(id) && e.view() == old(self)@[id]);
                assert(old(self)@[id].wf());
                if e.prompt.check_timeout(now) || e.mcp.check_timeout(now) {
                    assert(self@ =~= old(self)@.remove(id));
                    assert forall|k: u128| #[trigger] self@.contains_key(k) implies self@[k].wf() by {
                        assert(old(self)@.contains_key(k));
                    }
                    return SessionPoll::Expired;
                }
                let r = match e.mcp.next_message(now) {
                    Some(m) => SessionPoll::Event(PromptResponse::McpRequest(m)),
                    None => match e.prompt.next_message(now) {
                        Some(m) => SessionPoll::Event(PromptResponse::PromptResponse(m)),
                        None => SessionPoll::Idle,
                    },
                };
                self.sessions.insert(id, e);
                assert(self@ =~= old(self)@.insert(id, e.view()));
                assert forall|k: u128| #[trigger] self@.contains_key(k) implies self@[k].wf() by {
                    if k != id {
                        assert(old(self)@.contains_key(k));
                    }
                }
                proof {
                    if old(self)@[id].mcp.messages.len() == 0 && old(self)@[id].prompt.messages.len()
                        == 0 {
                        assert(old(self)@.insert(id, e.view()) =~= old(self)@);
                    }
                }
                r
            },
        }
    }

    /// Whether `id` names a live session.
    pub fn contains(&self, id: u128) -> (r: bool)
        ensures
            r == self@.contains_key(id),
    {
        self.sessions.contains_key(&id)
    }

    /// Number of live sessions.
    pub fn len(&self) -> (r: usize)
        ensures
            r == self@.len(),
    {
        assert(self@.dom() =~= self.sessions@.dom());
        self.sessions.len()
    }
}

impl Default for Broker {
    /// An empty registry.
    fn default() -> (r: Broker)
        ensures
            r.wf(),
            r@ == Map::<u128, SessionView>::empty(),
    {
        Broker::new()
    }
}

} // verus!
