//! The bounded lossy channel that carries discovered IPs from the producer
//! task to the consumer task.
//!
//! The channel keeps at most `capacity` unconsumed messages. When the
//! producer outruns the consumer, the oldest unconsumed messages are dropped
//! and counted; the consumer learns the count on its next receive, then goes
//! on with the newest surviving messages. The consumer therefore sees a
//! monotonically advancing subsequence of what was produced: never a value
//! out of order, never a value the producer did not send, and never a silent
//! loss.
//!
//! The mathematical state of a channel is a [`ChannelModel`]; every operation
//! says exactly which model it leaves behind, and the overflow law
//! [`lemma_overflow_burst`] is proved over the model alone.
use crate::Message;
use vstd::prelude::*;

verus! {

/// Mathematical state of a channel.
///
/// `history` is every IP ever published, oldest first. The consumer stands at
/// cursor [`model_pos`]; the `lag` entries after the cursor were dropped by
/// overflow and not yet reported, and the last `buffered` entries are still
/// held for delivery.
pub ghost struct ChannelModel {
    /// Most unconsumed messages the channel will hold; at least 1.
    pub capacity: nat,
    /// Every published IP, oldest first.
    pub history: Seq<Seq<char>>,
    /// Messages dropped by overflow since the consumer last learned of a loss.
    pub lag: nat,
    /// Messages currently held for delivery: the newest `buffered` of `history`.
    pub buffered: nat,
    /// Whether the producer side has been closed.
    pub closed: bool,
}

/// A channel model that its operations keep.
pub open spec fn model_wf(m: ChannelModel) -> bool {
    &&& m.capacity >= 1
    &&& m.buffered <= m.capacity
    &&& m.lag + m.buffered <= m.history.len()
}

/// The consumer's cursor into `history`: the index of the next message it
/// will learn about, delivered or reported dropped.
pub open spec fn model_pos(m: ChannelModel) -> int {
    m.history.len() - m.lag - m.buffered
}

/// The messages still held for delivery, oldest first.
pub open spec fn model_pending(m: ChannelModel) -> Seq<Seq<char>> {
    m.history.subrange(m.history.len() - m.buffered, m.history.len() as int)
}

/// The state of a newly created channel.
pub open spec fn model_fresh(capacity: nat) -> ChannelModel {
    ChannelModel {
        capacity: capacity,
        history: Seq::empty(),
        lag: 0,
        buffered: 0,
        closed: false,
    }
}

/// What publishing one IP does: it always enters the history; if the buffer
/// is full, the oldest buffered message is dropped and counted in `lag`.
pub open spec fn model_publish(m: ChannelModel, ip: Seq<char>) -> ChannelModel {
    if m.buffered == m.capacity {
        ChannelModel {
            capacity: m.capacity,
            history: m.history.push(ip),
            lag: m.lag + 1,
            buffered: m.buffered,
            closed: m.closed,
        }
    } else {
        ChannelModel {
            capacity: m.capacity,
            history: m.history.push(ip),
            lag: m.lag,
            buffered: m.buffered + 1,
            closed: m.closed,
        }
    }
}

/// What the consumer is handed on one receive.
pub enum RecvOutcome {
    /// The next unconsumed message.
    Msg(Message),
    /// `n` messages were dropped by overflow since the consumer last looked;
    /// the next receive goes on with the newest surviving messages.
    Lagged(u64),
    /// Nothing is pending and the producer is still alive.
    Empty,
    /// Nothing is pending and the producer side is closed for good.
    Closed,
}

/// The bounded lossy single-producer single-consumer channel.
pub struct Channel {
    capacity: usize,
    buf: Vec<Message>,
    lag: u64,
    closed: bool,
    hist: Ghost<Seq<Seq<char>>>,
}

impl Channel {
    /// The model this channel is in.
    pub closed spec fn view(&self) -> ChannelModel {
        ChannelModel {
            capacity: self.capacity as nat,
            history: self.hist@,
            lag: self.lag as nat,
            buffered: self.buf@.len(),
            closed: self.closed,
        }
    }

    /// Internal consistency: the model is well formed and the buffer holds
    /// exactly the newest `buffered` entries of the history, in order.
    pub closed spec fn wf(&self) -> bool {
        &&& model_wf(self@)
        &&& forall|i: int|
            0 <= i < self.buf@.len() ==> self.buf@[i]@ == self.hist@[self.hist@.len()
                - self.buf@.len() + i]
    }

    /// A fresh channel holding up to `capacity` unconsumed messages.
    pub fn new(capacity: usize) -> (c: Channel)
        requires
            capacity >= 1,
        ensures
            c.wf(),
            c@ == model_fresh(capacity as nat),
    {
        Channel { capacity, buf: Vec::new(), lag: 0, closed: false, hist: Ghost(Seq::empty()) }
    }

    /// Publishes one message. Never blocks and never fails: if the buffer is
    /// full, the oldest unconsumed message makes room and the loss is counted
    /// for the consumer.
    pub fn publish(&mut self, m: Message)
        requires
            old(self).wf(),
            old(self)@.lag < u64::MAX,
        ensures
            final(self).wf(),
            final(self)@ == model_publish(old(self)@, m@),
    {
        let ghost ip = m@;
        if self.buf.len() == self.capacity {
            self.buf.remove(0);
            self.lag = self.lag + 1;
        }
        self.buf.push(m);
        self.hist = Ghost(self.hist@.push(ip));
        proof {
            assert forall|i: int| 0 <= i < self.buf@.len() implies self.buf@[i]@ == self.hist@[
                self.hist@.len() - self.buf@.len() + i
            ] by {}
        }
    }

    /// Hands the consumer the next event: an unreported loss count first,
    /// then the oldest pending message, and otherwise whether the producer
    /// side is closed. Delivered messages come from strictly advancing
    /// history positions, in publish order.
    pub fn recv(&mut self) -> (r: RecvOutcome)
        requires
            old(self).wf(),
        ensures
            final(self).wf(),
            final(self)@.capacity == old(self)@.capacity,
            final(self)@.history == old(self)@.history,
            final(self)@.closed == old(self)@.closed,
            old(self)@.lag > 0 ==> {
                &&& r matches RecvOutcome::Lagged(n) && n as nat == old(self)@.lag
                &&& final(self)@.lag == 0
                &&& final(self)@.buffered == old(self)@.buffered
            },
            old(self)@.lag == 0 && old(self)@.buffered > 0 ==> {
                &&& r matches RecvOutcome::Msg(m) && m@ == old(self)@.history[model_pos(
                    old(self)@,
                )]
                &&& final(self)@.lag == 0
                &&& final(self)@.buffered == old(self)@.buffered - 1
            },
            old(self)@.lag == 0 && old(self)@.buffered == 0 ==> {
                &&& final(self)@ == old(self)@
                &&& old(self)@.closed ==> (r matches RecvOutcome::Closed)
                &&& !old(self)@.closed ==> (r matches RecvOutcome::Empty)
            },
    {
        if self.lag > 0 {
            let n = self.lag;
            self.lag = 0;
            RecvOutcome::Lagged(n)
        } else if self.buf.len() > 0 {
            let m = self.buf.remove(0);
            RecvOutcome::Msg(m)
        } else if self.closed {
            RecvOutcome::Closed
        } else {
            RecvOutcome::Empty
        }
    }

    /// Closes the producer side: pending messages stay deliverable, and once
    /// they are drained the consumer is told the channel is closed for good.
    pub fn close(&mut self)
        requires
            old(self).wf(),
        ensures
            final(self).wf(),
            final(self)@ == (ChannelModel {
                capacity: old(self)@.capacity,
                history: old(self)@.history,
                lag: old(self)@.lag,
                buffered: old(self)@.buffered,
                closed: true,
            }),
    {
        self.closed = true;
    }
}

/// Publishing a whole burst, one message at a time, oldest first.
pub open spec fn model_publish_all(m: ChannelModel, ips: Seq<Seq<char>>) -> ChannelModel
    decreases ips.len(),
{
    if ips.len() == 0 {
        m
    } else {
        model_publish_all(model_publish(m, ips[0]), ips.subrange(1, ips.len() as int))
    }
}

/// A channel whose consumer has neither received a message nor been told of
/// a loss yet: the buffer holds the newest messages up to capacity and the
/// lag counts everything else.
pub open spec fn model_unconsumed(m: ChannelModel) -> bool {
    &&& m.lag + m.buffered == m.history.len()
    &&& m.buffered == if m.history.len() < m.capacity {
        m.history.len()
    } else {
        m.capacity
    }
}

/// While the consumer does not run, each publish keeps the channel in the
/// unconsumed pattern and appends to the history.
pub proof fn lemma_publish_all_unconsumed(m: ChannelModel, ips: Seq<Seq<char>>)
    requires
        model_wf(m),
        model_unconsumed(m),
    ensures
        ({
            let m1 = model_publish_all(m, ips);
            &&& model_wf(m1)
            &&& model_unconsumed(m1)
            &&& m1.history == m.history + ips
            &&& m1.capacity == m.capacity
            &&& m1.closed == m.closed
        }),
    decreases ips.len(),
{
    if ips.len() == 0 {
        assert(m.history + ips =~= m.history);
    } else {
        let m2 = model_publish(m, ips[0]);
        lemma_publish_all_unconsumed(m2, ips.subrange(1, ips.len() as int));
        assert(m2.history + ips.subrange(1, ips.len() as int) =~= m.history + ips);
    }
}

/// Channel overflow law: when a burst of more messages than the capacity is
/// published into a fresh channel before the consumer runs, the loss count
/// waiting for the consumer is exactly the overflow (so at least the burst
/// length minus the capacity), the newest `capacity` messages are still
/// deliverable in order, and the last deliverable message is the last one
/// produced.
pub proof fn lemma_overflow_burst(k: nat, ips: Seq<Seq<char>>)
    requires
        1 <= k < ips.len(),
    ensures
        ({
            let m1 = model_publish_all(model_fresh(k), ips);
            &&& m1.history == ips
            &&& m1.lag == ips.len() - k
            &&& m1.buffered == k
            &&& model_pending(m1) == ips.subrange(ips.len() - k, ips.len() as int)
            &&& model_pending(m1).last() == ips.last()
        }),
{
    let m0 = model_fresh(k);
    lemma_publish_all_unconsumed(m0, ips);
    let m1 = model_publish_all(m0, ips);
    assert(m1.history =~= ips);
    assert(model_pending(m1) =~= ips.subrange(ips.len() - k, ips.len() as int));
}

} // verus!
