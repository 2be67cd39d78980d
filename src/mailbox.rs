//! A bounded FIFO mailbox that records when it was last used.
//!
//! Nothing here blocks: a send into a full mailbox hands the message back, and
//! the task that has to wait does so without holding the mailbox, so a waiting
//! sender never keeps the reader from making room.

use std::collections::VecDeque;
use vstd::prelude::*;

verus! {

/// How many messages a mailbox holds before a sender has to wait.
pub const CHANNEL_SIZE: usize = 1000;

/// Inactivity window, in milliseconds, after which a mailbox counts as expired.
pub const TIMEOUT_MILLIS: u64 = 600_000;

/// The abstract state of a mailbox.
pub ghost struct MailboxView<T> {
    /// Waiting messages, oldest first.
    pub messages: Seq<T>,
    /// Time of the most recent successful enqueue or dequeue.
    pub last_activity: int,
    /// Whether the mailbox has been closed to senders.
    pub closed: bool,
}

impl<T> MailboxView<T> {
    /// A send is accepted exactly when the mailbox is open and not full.
    pub open spec fn accepts(self) -> bool {
        !self.closed && self.messages.len() < CHANNEL_SIZE
    }

    /// The state after `msg` was accepted at time `now`.
    pub open spec fn after_send(self, msg: T, now: int) -> MailboxView<T> {
        MailboxView { messages: self.messages.push(msg), last_activity: now, closed: self.closed }
    }

    /// The state after a receive at time `now`; an empty mailbox is left as it is.
    pub open spec fn after_receive(self, now: int) -> MailboxView<T> {
        if self.messages.len() > 0 {
            MailboxView {
                messages: self.messages.drop_first(),
                last_activity: now,
                closed: self.closed,
            }
        } else {
            self
        }
    }

    /// An empty, open mailbox last used at `now`.
    pub open spec fn fresh(now: int) -> MailboxView<T> {
        MailboxView { messages: Seq::empty(), last_activity: now, closed: false }
    }

    /// What a send of `msg` at `now` returns, and the state after it: refused
    /// with the message handed back when closed or full, accepted otherwise.
    pub open spec fn send_outcome(self, msg: T, now: int) -> (Result<(), SendError<T>>, MailboxView<T>) {
        if self.closed {
            (Err(SendError::Closed(msg)), self)
        } else if self.messages.len() >= CHANNEL_SIZE {
            (Err(SendError::Full(msg)), self)
        } else {
            (Ok(()), self.after_send(msg, now))
        }
    }

    /// What a receive at `now` returns, and the state after it: the oldest
    /// message, or `None` when nothing waits.
    pub open spec fn receive_outcome(self, now: int) -> (Option<T>, MailboxView<T>) {
        if self.messages.len() > 0 {
            (Some(self.messages[0]), self.after_receive(now))
        } else {
            (None, self)
        }
    }

    /// No activity within `window` before `now`.
    pub open spec fn expired(self, now: int, window: int) -> bool {
        now - window > self.last_activity
    }
}

/// One operation on a mailbox, with the time at which it happens.
pub ghost enum MailboxOp<T> {
    Send(T, int),
    Receive(int),
}

/// What a run of operations did: the final state, what receivers got, and
/// what senders had accepted, each in order.
pub ghost struct MailboxTrace<T> {
    pub state: MailboxView<T>,
    pub delivered: Seq<T>,
    pub accepted: Seq<T>,
}

/// Applies `ops` to `v` in order, with the outcomes of `send_message` and
/// `next_message`; a refused send and a receive from an empty mailbox change
/// nothing.
pub open spec fn replay<T>(v: MailboxView<T>, ops: Seq<MailboxOp<T>>) -> MailboxTrace<T>
    decreases ops.len(),
{
    if ops.len() == 0 {
        MailboxTrace { state: v, delivered: Seq::empty(), accepted: Seq::empty() }
    } else {
        let t = replay(v, ops.drop_last());
        match ops.last() {
            MailboxOp::Send(m, at) => {
                let (res, s) = t.state.send_outcome(m, at);
                MailboxTrace {
                    state: s,
                    delivered: t.delivered,
                    accepted: if res is Ok {
                        t.accepted.push(m)
                    } else {
                        t.accepted
                    },
                }
            },
            MailboxOp::Receive(at) => {
                let (got, s) = t.state.receive_outcome(at);
                MailboxTrace {
                    state: s,
                    delivered: match got {
                        Some(x) => t.delivered.push(x),
                        None => t.delivered,
                    },
                    accepted: t.accepted,
                }
            },
        }
    }
}

/// Messages leave a mailbox in the order in which they entered it: whatever
/// the interleaving of sends and receives, what was waiting followed by what
/// was accepted equals what was delivered followed by what is still waiting.
pub proof fn lemma_fifo<T>(v: MailboxView<T>, ops: Seq<MailboxOp<T>>)
    ensures
        v.messages + replay(v, ops).accepted == replay(v, ops).delivered + replay(
            v,
            ops,
        ).state.messages,
    decreases ops.len(),
{
    if ops.len() > 0 {
        let t = replay(v, ops.drop_last());
        lemma_fifo(v, ops.drop_last());
        match ops.last() {
            MailboxOp::Send(m, at) => {
                if t.state.accepts() {
                    assert(v.messages + t.accepted.push(m) =~= (v.messages + t.accepted).push(m));
                    assert(t.delivered + t.state.messages.push(m) =~= (t.delivered
                        + t.state.messages).push(m));
                }
            },
            MailboxOp::Receive(at) => {
                if t.state.messages.len() > 0 {
                    assert(t.delivered.push(t.state.messages[0]) + t.state.messages.drop_first()
                        =~= t.delivered + t.state.messages);
                }
            },
        }
    }
}

/// Sends of each of `msgs` in turn, all at time `at`.
pub open spec fn sends<T>(msgs: Seq<T>, at: int) -> Seq<MailboxOp<T>> {
    msgs.map_values(|m: T| MailboxOp::Send(m, at))
}

/// `n` receives, all at time `at`.
pub open spec fn receives<T>(n: nat, at: int) -> Seq<MailboxOp<T>> {
    Seq::new(n, |i: int| MailboxOp::Receive(at))
}

/// Running `a` then `b` is running `b` from where `a` left off.
pub proof fn lemma_replay_append<T>(v: MailboxView<T>, a: Seq<MailboxOp<T>>, b: Seq<MailboxOp<T>>)
    ensures
        ({
            let ta = replay(v, a);
            let tb = replay(ta.state, b);
            replay(v, a + b) == MailboxTrace {
                state: tb.state,
                delivered: ta.delivered + tb.delivered,
                accepted: ta.accepted + tb.accepted,
            }
        }),
    decreases b.len(),
{
    let ta = replay(v, a);
    if b.len() == 0 {
        assert(a + b =~= a);
        assert(ta.delivered + Seq::<T>::empty() =~= ta.delivered);
        assert(ta.accepted + Seq::<T>::empty() =~= ta.accepted);
    } else {
        assert((a + b).drop_last() =~= a + b.drop_last());
        assert((a + b).last() == b.last());
        lemma_replay_append(v, a, b.drop_last());
        let tp = replay(ta.state, b.drop_last());
        assert(ta.delivered + tp.delivered.push(tp.state.messages[0]) =~= (ta.delivered
            + tp.delivered).push(tp.state.messages[0]));
        match b.last() {
            MailboxOp::Send(m, at) => {
                assert(ta.accepted + tp.accepted.push(m) =~= (ta.accepted + tp.accepted).push(m));
            },
            MailboxOp::Receive(at) => {},
        }
    }
}

/// Sends into an open mailbox with room for all of `msgs` are all accepted
/// and appended in order.
pub proof fn lemma_sends_accepted<T>(v: MailboxView<T>, msgs: Seq<T>, at: int)
    requires
        !v.closed,
        v.messages.len() + msgs.len() <= CHANNEL_SIZE,
    ensures
        replay(v, sends(msgs, at)).state.messages == v.messages + msgs,
        !replay(v, sends(msgs, at)).state.closed,
        replay(v, sends(msgs, at)).delivered == Seq::<T>::empty(),
        replay(v, sends(msgs, at)).accepted == msgs,
    decreases msgs.len(),
{
    if msgs.len() == 0 {
        assert(v.messages + msgs =~= v.messages);
    } else {
        assert(sends(msgs, at).drop_last() =~= sends(msgs.drop_last(), at));
        lemma_sends_accepted(v, msgs.drop_last(), at);
        assert(v.messages + msgs.drop_last().push(msgs.last()) =~= v.messages + msgs);
        assert(msgs.drop_last().push(msgs.last()) =~= msgs);
    }
}

/// `n` receives from a mailbox holding at least `n` messages deliver its
/// first `n` messages, in order, and leave the rest waiting.
pub proof fn lemma_receives_drain<T>(v: MailboxView<T>, n: nat, at: int)
    requires
        n <= v.messages.len(),
    ensures
        replay(v, receives(n, at)).delivered == v.messages.take(n as int),
        replay(v, receives(n, at)).state.messages == v.messages.skip(n as int),
        replay(v, receives(n, at)).accepted == Seq::<T>::empty(),
    decreases n,
{
    if n == 0 {
        assert(v.messages.take(0) =~= Seq::<T>::empty());
        assert(v.messages.skip(0) =~= v.messages);
    } else {
        assert(receives::<T>(n, at).drop_last() =~= receives::<T>((n - 1) as nat, at));
        lemma_receives_drain(v, (n - 1) as nat, at);
        let w = v.messages.skip(n - 1);
        assert(w[0] == v.messages[n - 1]);
        assert(v.messages.take(n - 1).push(w[0]) =~= v.messages.take(n as int));
        assert(w.drop_first() =~= v.messages.skip(n as int));
    }
}

/// Messages sent into an empty, open mailbox come out of as many receives in
/// the order they were sent, none lost or repeated, and the mailbox is empty
/// again.
pub proof fn lemma_fifo_batch<T>(v: MailboxView<T>, msgs: Seq<T>, t1: int, t2: int)
    requires
        !v.closed,
        v.messages.len() == 0,
        msgs.len() <= CHANNEL_SIZE,
    ensures
        replay(v, sends(msgs, t1) + receives(msgs.len(), t2)).delivered == msgs,
        replay(v, sends(msgs, t1) + receives(msgs.len(), t2)).state.messages.len() == 0,
{
    lemma_replay_append(v, sends(msgs, t1), receives(msgs.len(), t2));
    lemma_sends_accepted(v, msgs, t1);
    let w = replay(v, sends(msgs, t1)).state;
    assert(w.messages =~= msgs);
    lemma_receives_drain(w, msgs.len(), t2);
    assert(msgs.take(msgs.len() as int) =~= msgs);
    assert(Seq::<T>::empty() + msgs =~= msgs);
}

/// A full mailbox refuses a send without losing anything, and once the
/// reader has taken one message the same send is accepted: the message
/// taken followed by what waits then is what waited before plus `msg`.
pub proof fn lemma_backpressure<T>(v: MailboxView<T>, msg: T, t1: int, t2: int)
    requires
        !v.closed,
        v.messages.len() == CHANNEL_SIZE,
    ensures
        !v.accepts(),
        v.after_receive(t1).accepts(),
        seq![v.messages[0]] + v.after_receive(t1).after_send(msg, t2).messages == v.messages.push(
            msg,
        ),
{
    assert(seq![v.messages[0]] + v.messages.drop_first().push(msg) =~= v.messages.push(msg));
}

/// Why a message was not enqueued. The message is handed back, never dropped.
pub enum SendError<T> {
    /// The mailbox holds `CHANNEL_SIZE` messages: wait for the reader, then try again.
    Full(T),
    /// The mailbox is closed and accepts nothing more.
    Closed(T),
}

/// A bounded mailbox between one producer and one consumer.
pub struct BrokerPipe<T> {
    queue: VecDeque<T>,
    last_message: u64,
    closed: bool,
}

impl<T> View for BrokerPipe<T> {
    type V = MailboxView<T>;

    closed spec fn view(&self) -> MailboxView<T> {
        MailboxView {
            messages: self.queue@,
            last_activity: self.last_message as int,
            closed: self.closed,
        }
    }
}

impl<T> BrokerPipe<T> {
    /// The capacity is never exceeded.
    pub open spec fn wf(&self) -> bool {
        self@.messages.len() <= CHANNEL_SIZE
    }

    /// An empty, open mailbox whose last activity is `now`.
    pub fn new(now: u64) -> (r: Self)
        ensures
            r.wf(),
            r@ == MailboxView::<T>::fresh(now as int),
    {
        BrokerPipe { queue: VecDeque::new(), last_message: now, closed: false }
    }

    /// Enqueues `msg` at time `now` if the mailbox is open and has room.
    pub fn send_message(&mut self, msg: T, now: u64) -> (r: Result<(), SendError<T>>)
        requires
            old(self).wf(),
        ensures
            final(self).wf(),
            (r, final(self)@) == old(self)@.send_outcome(msg, now as int),
    {
        if self.closed {
            return Err(SendError::Closed(msg));
        }
        if self.queue.len() >= CHANNEL_SIZE {
            return Err(SendError::Full(msg));
        }
        self.queue.push_back(msg);
        self.last_message = now;
        Ok(())
    }

    /// Takes the oldest message at time `now`; `None` when there is none.
    pub fn next_message(&mut self, now: u64) -> (r: Option<T>)
        requires
            old(self).wf(),
        ensures
            final(self).wf(),
            (r, final(self)@) == old(self)@.receive_outcome(now as int),
    {
        match self.queue.pop_front() {
            Some(m) => {
                self.last_message = now;
                Some(m)
            },
            None => None,
        }
    }

    /// Closes the mailbox to senders; waiting messages can still be received.
    pub fn close(&mut self)
        ensures
            final(self)@ == (MailboxView { closed: true, ..old(self)@ }),
    {
        self.closed = true;
    }

    /// Whether the mailbox is closed to senders.
    pub fn is_closed(&self) -> (r: bool)
        ensures
            r == self@.closed,
    {
        self.closed
    }

    /// Number of waiting messages.
    pub fn len(&self) -> (r: usize)
        ensures
            r == self@.messages.len(),
    {
        self.queue.len()
    }

    /// Time of the most recent successful enqueue or dequeue.
    pub fn last_message(&self) -> (r: u64)
        ensures
            r == self@.last_activity,
    {
        self.last_message
    }

    /// Whether there was no activity within `window` before `now`.
    pub fn is_expired(&self, now: u64, window: u64) -> (r: bool)
        ensures
            r == self@.expired(now as int, window as int),
    {
        now > self.last_message && now - self.last_message > window
    }

    /// Whether the mailbox has been idle for longer than the inactivity window.
    pub fn check_timeout(&self, now: u64) -> (r: bool)
        ensures
            r == self@.expired(now as int, TIMEOUT_MILLIS as int),
    {
        self.is_expired(now, TIMEOUT_MILLIS)
    }
}

} // verus!
