//! The bridge channel: an unbounded, ordered, multi-producer
//! single-consumer queue of [`Event`].
//!
//! Producers are native-framework completion callbacks; the single consumer
//! is the UI event loop's idle phase, which drains the queue once per
//! iteration. The queue's contents are its view: a sequence of events in the
//! order their `send` calls returned. `send` appends and never blocks;
//! `try_receive` and `drain` return immediately, never waiting for a
//! producer. Once the consumer is gone (`close`), `send` reports
//! [`SendError::ChannelClosed`] and is otherwise a no-op: a best-effort,
//! ignorable status.

use vstd::prelude::*;

use crate::event::{Event, SendError};

verus! {

/// The event queue connecting background callback threads to the UI loop.
pub struct Bridge {
    queue: Vec<Event>,
    receiver_alive: bool,
}

impl View for Bridge {
    type V = Seq<Event>;

    /// The pending events, oldest first.
    closed spec fn view(&self) -> Seq<Event> {
        self.queue@
    }
}

impl Bridge {
    /// Whether the consumer still exists, so that `send` will enqueue.
    pub closed spec fn is_open(&self) -> bool {
        self.receiver_alive
    }

    /// A fresh, open, empty channel, created once at program start.
    pub fn new() -> (bridge: Self)
        ensures
            bridge@ == Seq::<Event>::empty(),
            bridge.is_open(),
    {
        Bridge { queue: Vec::new(), receiver_alive: true }
    }

    /// Enqueue one event. Never blocks; on an open channel it appends the
    /// event after everything already pending, and it fails exactly when
    /// the consumer has been dropped, leaving the queue unchanged.
    pub fn send(&mut self, event: Event) -> (r: Result<(), SendError>)
        ensures
            final(self).is_open() == old(self).is_open(),
            old(self).is_open() ==> r == Ok::<(), SendError>(())
                && final(self)@ == old(self)@.push(event),
            !old(self).is_open() ==> r == Err::<(), SendError>(SendError::ChannelClosed)
                && final(self)@ == old(self)@,
    {
        if self.receiver_alive {
            self.queue.push(event);
            Ok(())
        } else {
            Err(SendError::ChannelClosed)
        }
    }

    /// Take the oldest pending event, if any. Returns at once with `None`
    /// on an empty queue; otherwise removes and returns the front event,
    /// leaving the rest in order.
    pub fn try_receive(&mut self) -> (r: Option<Event>)
        ensures
            final(self).is_open() == old(self).is_open(),
            old(self)@.len() == 0 ==> r == Option::<Event>::None
                && final(self)@ == old(self)@,
            old(self)@.len() > 0 ==> r == Some(old(self)@.first())
                && final(self)@ == old(self)@.drop_first(),
    {
        if self.queue.len() == 0 {
            None
        } else {
            Some(self.queue.remove(0))
        }
    }

    /// Take every pending event at once, oldest first. Never blocks: on an
    /// empty queue it returns an empty vector at once. Afterwards the queue
    /// is empty; the drained vector holds exactly the events that had been
    /// sent, each once, in the order their `send` calls returned.
    pub fn drain(&mut self) -> (drained: Vec<Event>)
        ensures
            final(self).is_open() == old(self).is_open(),
            drained@ == old(self)@,
            final(self)@ == Seq::<Event>::empty(),
            old(self)@.len() == 0 ==> drained@.len() == 0,
    {
        let ghost orig: Seq<Event> = self.queue@;
        let ghost was_open: bool = self.receiver_alive;
        let mut drained: Vec<Event> = Vec::new();
        while self.queue.len() > 0
            invariant
                self.receiver_alive == was_open,
                drained@ + self.queue@ == orig,
            decreases self.queue.len(),
        {
            let event = self.queue.remove(0);
            drained.push(event);
        }
        proof {
            assert(self.queue@ =~= Seq::<Event>::empty());
            assert(drained@ =~= orig);
        }
        drained
    }

    /// Record that the consumer is gone: the UI loop has ended, and every
    /// later `send` fails with `ChannelClosed`. Pending events stay as they
    /// are (nobody will drain them).
    pub fn close(&mut self)
        ensures
            !final(self).is_open(),
            final(self)@ == old(self)@,
    {
        self.receiver_alive = false;
    }
}

/// The queue contents after a run of `send` calls on an open channel, each
/// of which appends one event: `sent` lists the events in the order the
/// calls returned.
pub open spec fn after_sends(q: Seq<Event>, sent: Seq<Event>) -> Seq<Event>
    decreases sent.len(),
{
    if sent.len() == 0 {
        q
    } else {
        after_sends(q.push(sent.first()), sent.drop_first())
    }
}

/// Delivery is exact and ordered. However the producers' `send` calls
/// interleave, after they return the queue holds what was already pending
/// followed by the sent events, in the order the calls returned; `drain`
/// returns that whole sequence, so the consumer sees exactly those events,
/// each exactly once, in order.
pub proof fn lemma_exact_ordered_delivery(q: Seq<Event>, sent: Seq<Event>)
    ensures
        after_sends(q, sent) == q + sent,
    decreases sent.len(),
{
    if sent.len() == 0 {
        assert(q + sent =~= q);
    } else {
        lemma_exact_ordered_delivery(q.push(sent.first()), sent.drop_first());
        assert(q.push(sent.first()) + sent.drop_first() =~= q + sent);
    }
}

} // verus!
