//! The per-request multiplexer: announces the session, then drains both of
//! its mailboxes into one outbound stream until the consumer leaves or the
//! session expires.

use vstd::prelude::*;

use crate::broker::{poll_outcome, resolve_outcome, Broker, SessionError, SessionPoll, SessionView};
use crate::events::PromptResponse;
use crate::mailbox::{CHANNEL_SIZE, TIMEOUT_MILLIS};
use crate::producer::prompt_send_outcome;

verus! {

/// Where a multiplexer stands.
#[derive(Debug, Clone, Copy, PartialEq, Eq, Structural)]
pub enum MuxState {
    /// Nothing emitted yet.
    Starting,
    /// Forwarding messages.
    Draining,
    /// Finished; terminal.
    Closing,
}

/// What the task running a multiplexer does next.
#[derive(Debug)]
pub enum MuxAction {
    /// Send this event to the consumer, then poll again.
    Emit(PromptResponse),
    /// Nothing to forward: wait one polling tick, then poll again.
    Wait,
    /// Stop: the consumer left or the session is gone.
    Close,
}

/// One step of a multiplexer for session `id` in state `s`, given the registry
/// `m`, the time `now` and whether the consumer has disconnected: the action,
/// the next state, and the registry after the step.
pub open spec fn mux_step(s: MuxState, id: u128, m: Map<u128, SessionView>, now: int, gone: bool) -> (
    MuxAction,
    MuxState,
    Map<u128, SessionView>,
) {
    match s {
        MuxState::Starting => (MuxAction::Emit(PromptResponse::Connection(id)), MuxState::Draining, m),
        MuxState::Closing => (MuxAction::Close, MuxState::Closing, m),
        MuxState::Draining => if gone {
            (MuxAction::Close, MuxState::Closing, m)
        } else {
            let (p, m2) = poll_outcome(m, id, now);
            match p {
                SessionPoll::Event(e) => (MuxAction::Emit(e), MuxState::Draining, m2),
                SessionPoll::Idle => (MuxAction::Wait, MuxState::Draining, m2),
                _ => (MuxAction::Close, MuxState::Closing, m2),
            }
        },
    }
}

/// Drains one session into one outbound stream.
#[derive(Debug)]
pub struct Multiplexer {
    pub id: u128,
    pub state: MuxState,
}

impl Multiplexer {
    /// A multiplexer for session `id` that has emitted nothing yet.
    pub fn new(id: u128) -> (r: Multiplexer)
        ensures
            r.id == id,
            r.state == MuxState::Starting,
    {
        Multiplexer { id, state: MuxState::Starting }
    }

    /// Takes one step at time `now`; `consumer_gone` tells whether the
    /// outbound stream's consumer has disconnected. The first step always
    /// emits `Connection(id)`. A disconnect closes the stream and leaves the
    /// session in place; an expired session is removed from the registry.
    pub fn poll(&mut self, broker: &mut Broker, now: u64, consumer_gone: bool) -> (r: MuxAction)
        requires
            old(broker).wf(),
        ensures
            final(broker).wf(),
            final(self).id == old(self).id,
            (r, final(self).state, final(broker)@) == mux_step(
                old(self).state,
                old(self).id,
                old(broker)@,
                now as int,
                consumer_gone,
            ),
    {
        match self.state {
            MuxState::Starting => {
                self.state = MuxState::Draining;
                MuxAction::Emit(PromptResponse::Connection(self.id))
            },
            MuxState::Closing => MuxAction::Close,
            MuxState::Draining => {
                if consumer_gone {
                    self.state = MuxState::Closing;
                    return MuxAction::Close;
                }
                match broker.poll_session(self.id, now) {
                    SessionPoll::Event(e) => MuxAction::Emit(e),
                    SessionPoll::Idle => MuxAction::Wait,
                    _ => {
                        self.state = MuxState::Closing;
                        MuxAction::Close
                    },
                }
            },
        }
    }
}

/// Every stream opens with `Connection` carrying the session's own id, and
/// the registry is untouched by that first step.
pub proof fn lemma_connection_first(id: u128, m: Map<u128, SessionView>, now: int, gone: bool)
    ensures
        mux_step(MuxState::Starting, id, m, now, gone) == (
            MuxAction::Emit(PromptResponse::Connection(id)),
            MuxState::Draining,
            m,
        ),
{
}

/// A session one of whose mailboxes has been idle for the inactivity window
/// is removed by the next poll of its multiplexer, and resuming it then fails
/// with `StreamClosed`.
pub proof fn lemma_expiry(id: u128, m: Map<u128, SessionView>, now: int)
    requires
        m.contains_key(id),
        m[id].prompt.expired(now, TIMEOUT_MILLIS as int) || m[id].mcp.expired(
            now,
            TIMEOUT_MILLIS as int,
        ),
    ensures
        ({
            let (a, s, m2) = mux_step(MuxState::Draining, id, m, now, false);
            &&& a is Close
            &&& s == MuxState::Closing
            &&& m2 == m.remove(id)
            &&& resolve_outcome(m2, id) == Err::<u128, SessionError>(SessionError::StreamClosed)
        }),
{
}

/// A consumer that disconnects leaves its session in place. A message the
/// producer enqueues meanwhile waits at the end of the same response mailbox;
/// resuming with the same id succeeds, the new stream opens with
/// `Connection(id)`, and while the session is live the stream goes on from
/// those mailboxes: with nothing else waiting, its next step delivers that message.
pub proof fn lemma_resume(
    id: u128,
    m: Map<u128, SessionView>,
    msg: String,
    t_gone: int,
    t_send: int,
    t_resume: int,
)
    requires
        m.contains_key(id),
        m[id].prompt.accepts(),
    ensures
        ({
            let (a1, s1, m1) = mux_step(MuxState::Draining, id, m, t_gone, true);
            let (res, m2) = prompt_send_outcome(m1, id, msg, t_send);
            &&& a1 is Close
            &&& s1 == MuxState::Closing
            &&& m1 == m
            &&& res is Ok
            &&& m2.contains_key(id)
            &&& m2[id].prompt.messages == m[id].prompt.messages.push(msg)
            &&& m2[id].mcp == m[id].mcp
            &&& resolve_outcome(m2, id) == Ok::<u128, SessionError>(id)
            &&& mux_step(MuxState::Starting, id, m2, t_resume, false).0 == MuxAction::Emit(
                PromptResponse::Connection(id),
            )
            &&& !m2[id].expired(t_resume) && m[id].prompt.messages.len() == 0
                && m[id].mcp.messages.len() == 0 ==> mux_step(
                MuxState::Draining,
                id,
                m2,
                t_resume,
                false,
            ).0 == MuxAction::Emit(PromptResponse::PromptResponse(msg))
        }),
{
    let m2 = prompt_send_outcome(m, id, msg, t_send).1;
    if m[id].prompt.messages.len() == 0 {
        assert(m2[id].prompt.messages[0] == msg);
    }
}

/// The registry after delivering each of `msgs` in turn into the response
/// mailbox of session `id`, all at time `at`.
pub open spec fn deliver_all(m: Map<u128, SessionView>, id: u128, msgs: Seq<String>, at: int) -> Map<
    u128,
    SessionView,
>
    decreases msgs.len(),
{
    if msgs.len() == 0 {
        m
    } else {
        prompt_send_outcome(deliver_all(m, id, msgs.drop_last(), at), id, msgs.last(), at).1
    }
}

/// The actions of `n` steps of a draining multiplexer for session `id` at
/// time `now` whose consumer stays connected, and the registry after them.
pub open spec fn drain_steps(id: u128, m: Map<u128, SessionView>, now: int, n: nat) -> (
    Seq<MuxAction>,
    Map<u128, SessionView>,
)
    decreases n,
{
    if n == 0 {
        (Seq::empty(), m)
    } else {
        let (acts, m1) = drain_steps(id, m, now, (n - 1) as nat);
        let (a, s, m2) = mux_step(MuxState::Draining, id, m1, now, false);
        (acts.push(a), m2)
    }
}

/// How a response travels on the outbound stream.
pub open spec fn as_response(x: String) -> MuxAction {
    MuxAction::Emit(PromptResponse::PromptResponse(x))
}

/// Deliveries into an open response mailbox with room for all of `msgs` are
/// all accepted: they are appended in order, and nothing else changes but the
/// response mailbox's time of last use.
pub proof fn lemma_deliver_all(m: Map<u128, SessionView>, id: u128, msgs: Seq<String>, at: int)
    requires
        m.contains_key(id),
        !m[id].prompt.closed,
        m[id].prompt.messages.len() + msgs.len() <= CHANNEL_SIZE,
    ensures
        ({
            let m2 = deliver_all(m, id, msgs, at);
            &&& m2.dom() == m.dom()
            &&& forall|k: u128| k != id && #[trigger] m.contains_key(k) ==> m2[k] == m[k]
            &&& m2[id].prompt.messages == m[id].prompt.messages + msgs
            &&& !m2[id].prompt.closed
            &&& m2[id].prompt.last_activity == if msgs.len() == 0 {
                m[id].prompt.last_activity
            } else {
                at
            }
            &&& m2[id].mcp == m[id].mcp
        }),
    decreases msgs.len(),
{
    if msgs.len() == 0 {
        assert(m[id].prompt.messages + msgs =~= m[id].prompt.messages);
    } else {
        lemma_deliver_all(m, id, msgs.drop_last(), at);
        let m1 = deliver_all(m, id, msgs.drop_last(), at);
        assert(m[id].prompt.messages + msgs.drop_last().push(msgs.last()) =~= m[id].prompt.messages
            + msgs);
        assert(msgs.drop_last().push(msgs.last()) =~= msgs);
        assert(deliver_all(m, id, msgs, at).dom() =~= m.dom());
    }
}

/// While the session is live and its event mailbox empty, `n` steps of a
/// connected multiplexer forward the first `n` waiting responses, in order,
/// and leave the rest waiting.
pub proof fn lemma_drain(id: u128, m: Map<u128, SessionView>, now: int, n: nat)
    requires
        m.contains_key(id),
        !m[id].expired(now),
        m[id].mcp.messages.len() == 0,
        n <= m[id].prompt.messages.len(),
    ensures
        ({
            let (acts, m2) = drain_steps(id, m, now, n);
            &&& acts == m[id].prompt.messages.take(n as int).map_values(|x: String| as_response(x))
            &&& m2.contains_key(id)
            &&& m2[id].prompt.messages == m[id].prompt.messages.skip(n as int)
            &&& m2[id].mcp == m[id].mcp
            &&& !m2[id].expired(now)
        }),
    decreases n,
{
    if n == 0 {
        assert(m[id].prompt.messages.take(0).map_values(|x: String| as_response(x)) =~= Seq::<
            MuxAction,
        >::empty());
        assert(m[id].prompt.messages.skip(0) =~= m[id].prompt.messages);
    } else {
        lemma_drain(id, m, now, (n - 1) as nat);
        let (acts, m1) = drain_steps(id, m, now, (n - 1) as nat);
        let w = m1[id].prompt.messages;
        assert(w[0] == m[id].prompt.messages[n - 1]);
        assert(w.drop_first() =~= m[id].prompt.messages.skip(n as int));
        assert(acts.push(as_response(w[0])) =~= m[id].prompt.messages.take(n as int).map_values(
            |x: String| as_response(x),
        ));
    }
}

/// Echoing `msg` `n` times into a freshly created session, then streaming it
/// within the inactivity window, yields `Connection(id)` followed by `n`
/// responses `msg`, none lost or repeated, and nothing left waiting.
pub proof fn lemma_echo_run(
    id: u128,
    m: Map<u128, SessionView>,
    msg: String,
    n: nat,
    t0: int,
    t1: int,
    t2: int,
)
    requires
        m.contains_key(id),
        m[id] == SessionView::fresh(t0),
        n <= CHANNEL_SIZE,
        t0 <= t1 <= t2 <= t0 + TIMEOUT_MILLIS,
    ensures
        ({
            let m1 = deliver_all(m, id, Seq::new(n, |i: int| msg), t1);
            let (first, s, m2) = mux_step(MuxState::Starting, id, m1, t2, false);
            let (acts, m3) = drain_steps(id, m2, t2, n);
            &&& first == MuxAction::Emit(PromptResponse::Connection(id))
            &&& s == MuxState::Draining
            &&& acts == Seq::new(n, |i: int| as_response(msg))
            &&& m3[id].prompt.messages.len() == 0
        }),
{
    let msgs = Seq::new(n, |i: int| msg);
    lemma_deliver_all(m, id, msgs, t1);
    let m1 = deliver_all(m, id, msgs, t1);
    assert(m1[id].prompt.messages =~= msgs);
    lemma_drain(id, m1, t2, n);
    assert(msgs.take(n as int) =~= msgs);
    assert(msgs.map_values(|x: String| as_response(x)) =~= Seq::new(n, |i: int| as_response(msg)));
}

/// Resuming continues from the same mailboxes: after a disconnect, which
/// leaves the registry as it was, the producer's further messages `msgs` are
/// appended to the session's response mailbox; resuming with the same id
/// succeeds and opens with `Connection(id)`; and while the session is live
/// and no tool event waits, the stream forwards what was waiting at the
/// disconnect followed by all of `msgs`, in order.
pub proof fn lemma_resume_all(
    id: u128,
    m: Map<u128, SessionView>,
    msgs: Seq<String>,
    t_gone: int,
    t_send: int,
    t_resume: int,
)
    requires
        m.contains_key(id),
        !m[id].prompt.closed,
        m[id].prompt.messages.len() + msgs.len() <= CHANNEL_SIZE,
    ensures
        ({
            let (a1, s1, m1) = mux_step(MuxState::Draining, id, m, t_gone, true);
            let m2 = deliver_all(m1, id, msgs, t_send);
            let waiting = m[id].prompt.messages + msgs;
            &&& a1 is Close
            &&& m1 == m
            &&& m2[id].prompt.messages == waiting
            &&& resolve_outcome(m2, id) == Ok::<u128, SessionError>(id)
            &&& mux_step(MuxState::Starting, id, m2, t_resume, false) == (
                MuxAction::Emit(PromptResponse::Connection(id)),
                MuxState::Draining,
                m2,
            )
            &&& !m2[id].expired(t_resume) && m[id].mcp.messages.len() == 0 ==> drain_steps(
                id,
                m2,
                t_resume,
                waiting.len(),
            ).0 == waiting.map_values(|x: String| as_response(x))
        }),
{
    lemma_deliver_all(m, id, msgs, t_send);
    let m2 = deliver_all(m, id, msgs, t_send);
    let waiting = m[id].prompt.messages + msgs;
    if !m2[id].expired(t_resume) && m[id].mcp.messages.len() == 0 {
        lemma_drain(id, m2, t_resume, waiting.len());
        assert(waiting.take(waiting.len() as int) =~= waiting);
    }
}

} // verus!
