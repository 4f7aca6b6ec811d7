//! The queue that relays a job's output to one log reader.
//!
//! A relay starts from the events buffered so far and takes in new ones from the broadcaster
//! while it sends events to its reader one at a time, oldest first. When the broadcaster lets it
//! go, it sends everything still queued. The queue keeps the account of what it has sent: what was
//! sent, followed by what is still pending, is always every event it was given, in order.

use vstd::prelude::*;

use super::FrameEvent;
use std::collections::VecDeque;

verus! {

/// The one-element sequence holding the value, or the empty sequence.
pub open spec fn opt_seq<A>(o: Option<A>) -> Seq<A> {
    match o {
        Some(x) => seq![x],
        None => Seq::empty(),
    }
}

/// The state of the relay for one log reader.
pub struct RelayQueue {
    queue: VecDeque<FrameEvent>,
    to_send: Option<FrameEvent>,
    sent: Ghost<Seq<FrameEvent>>,
    incoming: Ghost<Seq<FrameEvent>>,
}

impl RelayQueue {
    /// The events sent to the reader so far, in order.
    pub closed spec fn sent(&self) -> Seq<FrameEvent> {
        self.sent@
    }

    /// Every event the relay was given: the starting events, then each event taken in.
    pub closed spec fn incoming(&self) -> Seq<FrameEvent> {
        self.incoming@
    }

    /// The event being sent, if any.
    pub closed spec fn in_flight(&self) -> Option<FrameEvent> {
        self.to_send
    }

    /// The events not sent yet, oldest first, starting with the one being sent.
    pub closed spec fn pending(&self) -> Seq<FrameEvent> {
        opt_seq(self.to_send) + self.queue@
    }

    /// The relay's account is right: what was sent, then what is pending, is what it was given.
    pub closed spec fn wf(&self) -> bool {
        self.sent@ + opt_seq(self.to_send) + self.queue@ == self.incoming@
    }

    /// A relay that starts from the given events, with nothing sent yet.
    pub fn new(frames: Vec<FrameEvent>) -> (res: Self)
        ensures
            res.wf(),
            res.incoming() == frames@,
            res.sent() == Seq::<FrameEvent>::empty(),
            res.pending() == frames@,
            res.in_flight() is None,
    {
        let mut queue: VecDeque<FrameEvent> = VecDeque::new();
        let n = frames.len();
        for i in 0..n
            invariant
                n == frames@.len(),
                queue@ == frames@.subrange(0, i as int),
        {
            queue.push_back(frames[i].share());
            assert(queue@ =~= frames@.subrange(0, i + 1));
        }
        assert(queue@ =~= frames@);
        let res = RelayQueue {
            queue,
            to_send: None,
            sent: Ghost(Seq::empty()),
            incoming: Ghost(frames@),
        };
        assert(res.sent@ + opt_seq(res.to_send) + res.queue@ =~= res.incoming@);
        assert(res.pending() =~= frames@);
        res
    }

    /// The event to send next: the one being sent, or else the oldest queued event, which then
    /// becomes the one being sent. `None` when nothing is pending.
    pub fn next_to_send(&mut self) -> (res: Option<FrameEvent>)
        requires
            old(self).wf(),
        ensures
            final(self).wf(),
            final(self).incoming() == old(self).incoming(),
            final(self).sent() == old(self).sent(),
            final(self).pending() == old(self).pending(),
            res == final(self).in_flight(),
            res is None <==> old(self).pending().len() == 0,
            res matches Some(x) ==> x == old(self).pending()[0],
    {
        if self.to_send.is_none() {
            self.to_send = self.queue.pop_front();
        }
        proof {
            assert(opt_seq(self.to_send) + self.queue@ =~= opt_seq(old(self).to_send)
                + old(self).queue@);
            assert(self.sent@ + opt_seq(self.to_send) + self.queue@ =~= self.sent@ + (opt_seq(
                self.to_send,
            ) + self.queue@));
            assert(old(self).sent@ + opt_seq(old(self).to_send) + old(self).queue@ =~= old(
                self,
            ).sent@ + (opt_seq(old(self).to_send) + old(self).queue@));
        }
        match &self.to_send {
            Some(ev) => Some(ev.share()),
            None => None,
        }
    }

    /// Takes in a new event from the broadcaster; it is queued after every pending event.
    pub fn push(&mut self, frame: FrameEvent)
        requires
            old(self).wf(),
        ensures
            final(self).wf(),
            final(self).incoming() == old(self).incoming().push(frame),
            final(self).sent() == old(self).sent(),
            final(self).pending() == old(self).pending().push(frame),
            final(self).in_flight() == old(self).in_flight(),
    {
        self.queue.push_back(frame);
        proof {
            self.incoming@ = self.incoming@.push(frame);
            assert(self.sent@ + opt_seq(self.to_send) + self.queue@ =~= self.incoming@);
            assert(self.pending() =~= old(self).pending().push(frame));
        }
    }

    /// Records that the event being sent reached the reader.
    pub fn mark_sent(&mut self)
        requires
            old(self).wf(),
            old(self).in_flight() is Some,
        ensures
            final(self).wf(),
            final(self).incoming() == old(self).incoming(),
            final(self).sent() == old(self).sent().push(old(self).in_flight()->0),
            final(self).pending() == old(self).pending().drop_first(),
            final(self).in_flight() is None,
    {
        let ghost ev = self.to_send->0;
        self.to_send = None;
        proof {
            self.sent@ = self.sent@.push(ev);
            assert(self.sent@ + opt_seq(self.to_send) + self.queue@ =~= old(self).sent@
                + opt_seq(old(self).to_send) + old(self).queue@);
            assert(self.pending() =~= old(self).pending().drop_first());
        }
    }

    /// Everything still pending, oldest first, for sending once no more events can arrive.
    /// What was sent followed by the result is every event the relay was given.
    pub fn drain(self) -> (res: Vec<FrameEvent>)
        requires
            self.wf(),
        ensures
            res@ == self.pending(),
            self.sent() + res@ == self.incoming(),
    {
        let RelayQueue { mut queue, to_send, sent, incoming } = self;
        let mut res: Vec<FrameEvent> = Vec::new();
        if let Some(ev) = to_send {
            res.push(ev);
        }
        let ghost start = res@;
        let ghost q0 = queue@;
        assert(start == opt_seq(to_send));
        while queue.len() > 0
            invariant
                res@ + queue@ == start + q0,
            decreases queue@.len(),
        {
            let ev = queue.pop_front().unwrap();
            let ghost before = res@;
            res.push(ev);
            assert(res@ + queue@ =~= before + (seq![ev] + queue@));
        }
        assert(res@ =~= start + q0);
        assert(sent@ + res@ =~= sent@ + opt_seq(to_send) + q0);
        res
    }
}

/// The relay's account, stated: whatever the order in which events were taken in and sent, what
/// was sent to the reader followed by what is still pending is every event the relay was given,
/// in the order it was given them.
pub proof fn lemma_relay_keeps_order(q: RelayQueue)
    requires
        q.wf(),
    ensures
        q.sent() + q.pending() == q.incoming(),
{
    assert(q.sent() + q.pending() =~= q.sent@ + opt_seq(q.to_send) + q.queue@);
}

} // verus!
