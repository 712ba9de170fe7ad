//! The lossy single-consumer channel.
//!
//! All state of one channel lives in a [`Shared`] value: the bounded queue,
//! the overrun flag, the wake handle of a suspended receiver, and the liveness
//! of both sides (how many sender handles exist, whether the receiver does).
//! Each operation is a step of that state machine; the wake handle type `W` is
//! whatever the hosting scheduler uses to resume a task, and waking it is left
//! to the caller, after the step has returned.
use vstd::prelude::*;
use std::collections::VecDeque;
use crate::common::{Async, Item, SendError};

verus! {

/// The abstract state of one channel.
pub struct ChannelState<T, W> {
    /// Unread messages, oldest first.
    pub queue: Seq<T>,
    /// The largest number of unread messages kept.
    pub capacity: nat,
    /// Whether a message was discarded since the last read.
    pub overrun: bool,
    /// The wake handle of a suspended receiver, if any.
    pub pending_wake: Option<W>,
    /// How many sender handles are alive.
    pub senders: nat,
    /// Whether the receiver is alive.
    pub receiver_alive: bool,
}

impl<T, W> ChannelState<T, W> {
    /// The state of a channel just created with the given capacity.
    pub open spec fn fresh(capacity: nat) -> Self {
        ChannelState {
            queue: Seq::empty(),
            capacity,
            overrun: false,
            pending_wake: None,
            senders: 1,
            receiver_alive: true,
        }
    }

    /// What holds of every reachable state.
    pub open spec fn inv(self) -> bool {
        &&& self.capacity > 0
        &&& self.queue.len() <= self.capacity
        &&& !self.receiver_alive ==> {
            &&& self.queue.len() == 0
            &&& !self.overrun
        }
    }

    /// The state after a message is admitted to a live channel: when the
    /// queue is full its oldest message is evicted and the overrun flag set;
    /// the message joins the back and the pending wake handle is taken.
    pub open spec fn after_send(self, msg: T) -> Self {
        let full = self.queue.len() == self.capacity;
        ChannelState {
            queue: if full {
                self.queue.drop_first().push(msg)
            } else {
                self.queue.push(msg)
            },
            overrun: self.overrun || full,
            pending_wake: None,
            ..self
        }
    }

    /// The item that the next read delivers (the queue must not be empty).
    pub open spec fn next_item(self) -> Item<T> {
        if self.overrun {
            Item::Overrun(self.queue[0])
        } else {
            Item::Next(self.queue[0])
        }
    }

    /// The state after the front message is read.
    pub open spec fn after_pop(self) -> Self {
        ChannelState { queue: self.queue.drop_first(), overrun: false, ..self }
    }

    /// The outcome of one poll by the receiver, with `task` as its wake
    /// handle, and the state after it.
    pub open spec fn poll_step(self, task: W) -> (Async<Option<Item<T>>>, Self) {
        if self.queue.len() > 0 {
            (Async::Ready(Some(self.next_item())), self.after_pop())
        } else if self.senders == 0 {
            (Async::Ready(None), self)
        } else {
            (Async::NotReady, ChannelState { pending_wake: Some(task), ..self })
        }
    }
    /// The state after sending each of `msgs` in turn, with no read between.
    pub open spec fn send_all(self, msgs: Seq<T>) -> Self
        decreases msgs.len(),
    {
        if msgs.len() == 0 {
            self
        } else {
            self.send_all(msgs.drop_last()).after_send(msgs.last())
        }
    }

    /// The items that successive reads deliver until the queue is empty.
    pub open spec fn drain(self) -> Seq<Item<T>>
        decreases self.queue.len(),
    {
        if self.queue.len() == 0 {
            Seq::empty()
        } else {
            seq![self.next_item()] + self.after_pop().drain()
        }
    }
}

/// The shared state of one channel.
pub struct Shared<T, W> {
    buffer: VecDeque<T>,
    capacity: usize,
    blocked_recv: Option<W>,
    overrun: bool,
    senders: usize,
    receiver_alive: bool,
}

impl<T, W> View for Shared<T, W> {
    type V = ChannelState<T, W>;

    closed spec fn view(&self) -> ChannelState<T, W> {
        ChannelState {
            queue: self.buffer@,
            capacity: self.capacity as nat,
            overrun: self.overrun,
            pending_wake: self.blocked_recv,
            senders: self.senders as nat,
            receiver_alive: self.receiver_alive,
        }
    }
}

impl<T, W> Shared<T, W> {
    /// Creates the state of a new channel with one sender and a receiver.
    pub fn new(capacity: usize) -> (s: Self)
        requires
            capacity > 0,
        ensures
            s@ == ChannelState::<T, W>::fresh(capacity as nat),
            s@.inv(),
    {
        Shared {
            buffer: VecDeque::with_capacity(capacity),
            capacity,
            blocked_recv: None,
            overrun: false,
            senders: 1,
            receiver_alive: true,
        }
    }

    /// The number of unread messages.
    pub fn len(&self) -> (r: usize)
        ensures
            r == self@.queue.len(),
    {
        self.buffer.len()
    }

    /// The number of sender handles alive.
    pub fn sender_count(&self) -> (r: usize)
        ensures
            r == self@.senders,
    {
        self.senders
    }

    /// Records one more sender handle.
    pub fn add_sender(&mut self)
        requires
            old(self)@.inv(),
            old(self)@.senders < usize::MAX,
        ensures
            final(self)@ == (ChannelState { senders: old(self)@.senders + 1, ..old(self)@ }),
            final(self)@.inv(),
    {
        self.senders = self.senders + 1;
    }

    /// Records that one sender handle is gone.
    pub fn drop_sender(&mut self)
        requires
            old(self)@.inv(),
            old(self)@.senders > 0,
        ensures
            final(self)@ == (ChannelState { senders: (old(self)@.senders - 1) as nat, ..old(self)@ }),
            final(self)@.inv(),
    {
        self.senders = self.senders - 1;
    }

    /// Records that the receiver is gone: the unread messages and any wake
    /// handle are released, and every later send fails.
    pub fn drop_receiver(&mut self)
        requires
            old(self)@.inv(),
        ensures
            final(self)@ == (ChannelState {
                queue: Seq::empty(),
                overrun: false,
                pending_wake: None,
                receiver_alive: false,
                ..old(self)@
            }),
            final(self)@.inv(),
    {
        self.buffer.clear();
        self.blocked_recv = None;
        self.overrun = false;
        self.receiver_alive = false;
    }
    /// Sends `msg`. On a channel whose receiver is gone the message comes back
    /// in the error and nothing changes. Otherwise the message is admitted
    /// (evicting the oldest one when the queue is full) and the wake handle of
    /// a suspended receiver, if any, is taken out and returned: the caller
    /// wakes it once this call has returned.
    pub fn start_send(&mut self, msg: T) -> (r: Result<Option<W>, SendError<T>>)
        requires
            old(self)@.inv(),
        ensures
            final(self)@.inv(),
            !old(self)@.receiver_alive ==> {
                &&& r matches Err(e) && e.value() == msg
                &&& final(self)@ == old(self)@
            },
            old(self)@.receiver_alive ==> {
                &&& r == Ok::<Option<W>, SendError<T>>(old(self)@.pending_wake)
                &&& final(self)@ == old(self)@.after_send(msg)
            },
    {
        if !self.receiver_alive {
            return Err(SendError::new(msg));
        }
        if self.buffer.len() == self.capacity {
            self.overrun = true;
            let _ = self.buffer.pop_front();
        }
        self.buffer.push_back(msg);
        let task = self.blocked_recv.take();
        Ok(task)
    }

    /// Reads the front message, tagged by the overrun flag, which is then
    /// cleared; `None` when the queue is empty.
    pub fn pop_front(&mut self) -> (r: Option<Item<T>>)
        requires
            old(self)@.inv(),
        ensures
            final(self)@.inv(),
            old(self)@.queue.len() == 0 ==> r is None && final(self)@ == old(self)@,
            old(self)@.queue.len() > 0 ==> {
                &&& r == Some(old(self)@.next_item())
                &&& final(self)@ == old(self)@.after_pop()
            },
    {
        match self.buffer.pop_front() {
            Some(msg) => {
                if self.overrun {
                    self.overrun = false;
                    Some(Item::Overrun(msg))
                } else {
                    Some(Item::Next(msg))
                }
            },
            None => None,
        }
    }

    /// One read step of the receiver, with `task` as its wake handle. Once
    /// every sender is gone the queue is drained and then the end of the
    /// stream is reported, again on each poll. While a sender lives, an empty
    /// queue stores `task` in place of any earlier handle and answers
    /// `NotReady`.
    pub fn poll(&mut self, task: W) -> (r: Async<Option<Item<T>>>)
        requires
            old(self)@.inv(),
        ensures
            final(self)@.inv(),
            (r, final(self)@) == old(self)@.poll_step(task),
    {
        if self.senders == 0 {
            return Async::Ready(self.pop_front());
        }
        match self.pop_front() {
            Some(item) => Async::Ready(Some(item)),
            None => {
                self.blocked_recv = Some(task);
                Async::NotReady
            },
        }
    }
}

/// The queue of a live channel after `msgs` were sent to it: the last
/// `capacity` messages of what was queued followed by `msgs`, and the
/// overrun flag set exactly when something had to be evicted.
proof fn lemma_send_all<T, W>(s: ChannelState<T, W>, msgs: Seq<T>)
    requires
        s.inv(),
    ensures
        ({
            let all = s.queue + msgs;
            let r = s.send_all(msgs);
            &&& r.queue == all.subrange(
                if all.len() > s.capacity { all.len() - s.capacity } else { 0 },
                all.len() as int,
            )
            &&& r.overrun == (s.overrun || all.len() > s.capacity)
            &&& r.capacity == s.capacity
            &&& r.senders == s.senders
            &&& r.receiver_alive == s.receiver_alive
        }),
    decreases msgs.len(),
{
    let all = s.queue + msgs;
    if msgs.len() == 0 {
        assert(all =~= s.queue);
        assert(all.subrange(0, all.len() as int) =~= all);
    } else {
        let prev = msgs.drop_last();
        lemma_send_all(s, prev);
        let all0 = s.queue + prev;
        assert(all0 =~= all.drop_last());
        let n = all.len() as int;
        let c = s.capacity as int;
        let q0 = s.send_all(prev).queue;
        if n - 1 > c {
            assert(q0 =~= all.subrange(n - 1 - c, n - 1));
            assert(q0.drop_first().push(msgs.last()) =~= all.subrange(n - c, n));
        } else if n - 1 == c {
            assert(q0 =~= all.subrange(0, n - 1));
            assert(q0.drop_first().push(msgs.last()) =~= all.subrange(n - c, n));
        } else {
            assert(q0 =~= all.subrange(0, n - 1));
            assert(q0.push(msgs.last()) =~= all.subrange(0, n));
        }
    }
}

/// Reading a queue to the end delivers each message in order; only the
/// first carries the overrun tag, and only if the flag was set.
proof fn lemma_drain<T, W>(s: ChannelState<T, W>)
    ensures
        s.drain().len() == s.queue.len(),
        forall|i: int|
            0 <= i < s.queue.len() ==> #[trigger] s.drain()[i] == if i == 0 && s.overrun {
                Item::Overrun(s.queue[i])
            } else {
                Item::Next(s.queue[i])
            },
    decreases s.queue.len(),
{
    if s.queue.len() > 0 {
        let t = s.after_pop();
        lemma_drain(t);
        assert forall|i: int| 0 <= i < s.queue.len() implies #[trigger] s.drain()[i] == if i == 0
            && s.overrun {
            Item::Overrun(s.queue[i])
        } else {
            Item::Next(s.queue[i])
        } by {
            if i > 0 {
                assert(s.drain()[i] == t.drain()[i - 1]);
            }
        }
    }
}

/// Sending `capacity` messages or fewer to a new channel and then reading
/// delivers exactly those messages in order, none tagged as an overrun.
pub proof fn law_fill_then_read<T, W>(capacity: nat, msgs: Seq<T>)
    requires
        capacity >= 1,
        msgs.len() <= capacity,
    ensures
        ChannelState::<T, W>::fresh(capacity).send_all(msgs).drain() == msgs.map_values(
            |m: T| Item::Next(m),
        ),
{
    let s = ChannelState::<T, W>::fresh(capacity);
    lemma_send_all(s, msgs);
    assert(s.queue + msgs =~= msgs);
    let r = s.send_all(msgs);
    assert(r.queue =~= msgs);
    lemma_drain(r);
    assert(r.drain() =~= msgs.map_values(|m: T| Item::Next(m)));
}

/// Sending more than `capacity` messages to a new channel with no read
/// between keeps only the last `capacity` of them, in order; reading them
/// yields the first tagged as an overrun and the rest as plain.
pub proof fn law_overflow_then_read<T, W>(capacity: nat, msgs: Seq<T>)
    requires
        capacity >= 1,
        msgs.len() > capacity,
    ensures
        ({
            let r = ChannelState::<T, W>::fresh(capacity).send_all(msgs);
            let k = msgs.len() as int;
            let c = capacity as int;
            &&& r.queue == msgs.subrange(k - c, k)
            &&& r.drain().len() == c
            &&& r.drain()[0] == Item::Overrun(msgs[k - c])
            &&& forall|i: int| 0 < i < c ==> #[trigger] r.drain()[i] == Item::Next(msgs[k - c + i])
        }),
{
    let s = ChannelState::<T, W>::fresh(capacity);
    lemma_send_all(s, msgs);
    assert(s.queue + msgs =~= msgs);
    let r = s.send_all(msgs);
    lemma_drain(r);
    let k = msgs.len() as int;
    let c = capacity as int;
    assert forall|i: int| 0 < i < c implies #[trigger] r.drain()[i] == Item::Next(msgs[k - c + i]) by {
        assert(r.drain()[i] == Item::Next(r.queue[i]));
    }
}

/// Once every sender is gone and the queue is empty, each poll reports the
/// end of the stream and leaves the state as it was, so any number of
/// further polls do the same.
pub proof fn law_closed_is_terminal<T, W>(s: ChannelState<T, W>, t1: W, t2: W)
    requires
        s.inv(),
        s.senders == 0,
        s.queue.len() == 0,
    ensures
        s.poll_step(t1) == (Async::<Option<Item<T>>>::Ready(None), s),
        s.poll_step(t1).1.poll_step(t2) == (Async::<Option<Item<T>>>::Ready(None), s),
{
}

/// Polling an empty channel that still has a sender suspends and stores the
/// poller's wake handle, the only one held; the next send hands exactly that
/// handle back to be woken and leaves none behind, so a later send wakes
/// nothing.
pub proof fn law_poll_then_send_wakes_once<T, W>(s: ChannelState<T, W>, task: W, m1: T, m2: T)
    requires
        s.inv(),
        s.receiver_alive,
        s.senders > 0,
        s.queue.len() == 0,
    ensures
        ({
            let (r, s1) = s.poll_step(task);
            &&& r == Async::<Option<Item<T>>>::NotReady
            &&& s1.pending_wake == Some(task)
            &&& s1.receiver_alive
            &&& s1.after_send(m1).pending_wake is None
            &&& s1.after_send(m1).receiver_alive
            &&& s1.after_send(m1).after_send(m2).pending_wake is None
        }),
{
}

} // verus!
