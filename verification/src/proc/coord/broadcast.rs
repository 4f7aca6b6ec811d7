//! Buffers a job's output and hands it to log readers.
//!
//! The broadcaster receives the events of a job's output. Each event is buffered, and offered to
//! every relay that is still taking events; a relay that does not take it is dropped. A new log
//! reader gets a relay that starts from a copy of every event buffered so far. So every relay the
//! broadcaster keeps has been handed, in order, every event since it started, and started from
//! every event before. Once the job's output has ended no relay is kept: a relay started then
//! already holds every event there will be.

use vstd::prelude::*;

use super::feed::FrameRelay;
use super::FrameEvent;

verus! {

/// The elements of `s` whose flag in `mask` is set, in order.
pub open spec fn keep<A>(s: Seq<A>, mask: Seq<bool>) -> Seq<A>
    decreases s.len(),
{
    if s.len() == 0 || mask.len() != s.len() {
        Seq::empty()
    } else {
        let rest = keep(s.drop_last(), mask.drop_last());
        if mask.last() {
            rest.push(s.last())
        } else {
            rest
        }
    }
}

/// The offers of the events, each taken.
pub open spec fn taken(events: Seq<FrameEvent>) -> Seq<(FrameEvent, bool)> {
    events.map_values(|e: FrameEvent| (e, true))
}

/// The events of a record of offers.
pub open spec fn offered_events(offers: Seq<(FrameEvent, bool)>) -> Seq<FrameEvent> {
    offers.map_values(|o: (FrameEvent, bool)| o.0)
}

/// Whether `updated` is `relays` after each was offered `e`, the relay at `i` answering `oks[i]`.
pub open spec fn each_offered(
    relays: Seq<FrameRelay>,
    updated: Seq<FrameRelay>,
    e: FrameEvent,
    oks: Seq<bool>,
) -> bool {
    &&& updated.len() == relays.len()
    &&& oks.len() == relays.len()
    &&& forall|i: int|
        #![trigger oks[i]]
        0 <= i < relays.len() ==> updated[i].sender() == relays[i].sender() && updated[i].offers()
            == relays[i].offers().push((e, oks[i]))
}

/// The state of the broadcaster of one job.
pub struct Broadcaster {
    frames: Vec<FrameEvent>,
    relays: Vec<FrameRelay>,
    starts: Ghost<Seq<int>>,
    frame_rx_ok: bool,
    req_rx_ok: bool,
}

impl Broadcaster {
    /// Every event received so far, in order.
    pub closed spec fn frames(&self) -> Seq<FrameEvent> {
        self.frames@
    }

    /// The relays that have taken every event since they started.
    pub closed spec fn relays(&self) -> Seq<FrameRelay> {
        self.relays@
    }

    /// Whether more events may arrive.
    pub closed spec fn frame_rx_ok(&self) -> bool {
        self.frame_rx_ok
    }

    /// Whether more log requests may arrive.
    pub closed spec fn req_rx_ok(&self) -> bool {
        self.req_rx_ok
    }

    /// Whether more events may arrive.
    pub fn frames_open(&self) -> (res: bool)
        ensures
            res == self.frame_rx_ok(),
    {
        self.frame_rx_ok
    }

    /// Whether more log requests may arrive.
    pub fn requests_open(&self) -> (res: bool)
        ensures
            res == self.req_rx_ok(),
    {
        self.req_rx_ok
    }

    /// How many events have been received.
    pub fn frame_count(&self) -> (n: usize)
        ensures
            n == self.frames().len(),
    {
        self.frames.len()
    }

    /// How many relays are kept.
    pub fn relay_count(&self) -> (n: usize)
        ensures
            n == self.relays().len(),
    {
        self.relays.len()
    }

    /// For each relay, how many events had been received when it started.
    pub closed spec fn starts(&self) -> Seq<int> {
        self.starts@
    }

    /// The broadcaster's account: each kept relay started after some prefix of the events and has
    /// been offered, and has taken, every event after that prefix, in order.
    pub closed spec fn wf(&self) -> bool {
        &&& self.starts@.len() == self.relays@.len()
        &&& forall|i: int|
            #![trigger self.starts@[i]]
            0 <= i < self.relays@.len() ==> 0 <= self.starts@[i] <= self.frames@.len()
                && self.relays@[i].offers() == taken(
                self.frames@.subrange(self.starts@[i], self.frames@.len() as int),
            )
    }

    /// A broadcaster that has received nothing yet.
    pub fn new() -> (res: Self)
        ensures
            res.wf(),
            res.frames().len() == 0,
            res.relays().len() == 0,
            res.frame_rx_ok(),
            res.req_rx_ok(),
    {
        Broadcaster {
            frames: Vec::new(),
            relays: Vec::new(),
            starts: Ghost(Seq::empty()),
            frame_rx_ok: true,
            req_rx_ok: true,
        }
    }

    /// Whether there is nothing left to do: neither events nor requests can arrive.
    pub fn is_done(&self) -> (res: bool)
        ensures
            res == (!self.frame_rx_ok() && !self.req_rx_ok()),
    {
        !self.frame_rx_ok && !self.req_rx_ok
    }

    /// Takes in the next event of the job's output, or `None` when the output has ended.
    ///
    /// An event is offered to every relay, in order; the relays that took it are kept, the others
    /// are dropped, and the event is buffered. At the end of the output every relay is dropped,
    /// which lets each of them finish.
    pub fn on_frame(&mut self, ev: Option<FrameEvent>)
        requires
            old(self).frame_rx_ok(),
            old(self).wf(),
        ensures
            final(self).wf(),
            final(self).req_rx_ok() == old(self).req_rx_ok(),
            match ev {
                None => {
                    &&& !final(self).frame_rx_ok()
                    &&& final(self).relays().len() == 0
                    &&& final(self).frames() == old(self).frames()
                },
                Some(e) => {
                    &&& final(self).frame_rx_ok()
                    &&& final(self).frames() == old(self).frames().push(e)
                    &&& exists|updated: Seq<FrameRelay>, oks: Seq<bool>|
                        {
                            &&& each_offered(old(self).relays(), updated, e, oks)
                            &&& final(self).relays() == keep(updated, oks)
                        }
                },
            },
    {
        match ev {
            None => {
                self.frame_rx_ok = false;
                self.relays.clear();
                proof {
                    self.starts@ = Seq::empty();
                }
            },
            Some(e) => {
                let ghost frames0 = self.frames@;
                let ghost frames1 = frames0.push(e);
                let ghost starts0 = self.starts@;
                let mut old_relays: Vec<FrameRelay> = Vec::new();
                std::mem::swap(&mut old_relays, &mut self.relays);
                let ghost orig = old_relays@;
                let ghost mut updated: Seq<FrameRelay> = Seq::empty();
                let ghost mut oks: Seq<bool> = Seq::empty();
                let ghost mut kept_starts: Seq<int> = Seq::empty();
                let mut kept: Vec<FrameRelay> = Vec::new();
                let n = old_relays.len();
                for i in 0..n
                    invariant
                        n == orig.len(),
                        starts0.len() == orig.len(),
                        frames1 == frames0.push(e),
                        forall|k: int|
                            #![trigger starts0[k]]
                            0 <= k < orig.len() ==> 0 <= starts0[k] <= frames0.len()
                                && orig[k].offers() == taken(
                                frames0.subrange(starts0[k], frames0.len() as int),
                            ),
                        old_relays@ == orig.subrange(i as int, n as int),
                        updated.len() == i,
                        each_offered(orig.subrange(0, i as int), updated, e, oks),
                        kept@ == keep(updated, oks),
                        kept_starts.len() == kept@.len(),
                        forall|j: int|
                            #![trigger kept_starts[j]]
                            0 <= j < kept@.len() ==> 0 <= kept_starts[j] <= frames1.len()
                                && kept@[j].offers() == taken(
                                frames1.subrange(kept_starts[j], frames1.len() as int),
                            ),
                {
                    let mut r = old_relays.remove(0);
                    assert(r == orig[i as int]);
                    let ok = r.accept(e.share());
                    proof {
                        let s = starts0[i as int];
                        assert(taken(frames0.subrange(s, frames0.len() as int)).push((e, true))
                            =~= taken(frames1.subrange(s, frames1.len() as int)));
                        let updated1 = updated.push(r);
                        let oks1 = oks.push(ok);
                        assert(updated1.drop_last() =~= updated);
                        assert(oks1.drop_last() =~= oks);
                        assert forall|k: int|
                            #![trigger oks1[k]]
                            0 <= k < i + 1 implies updated1[k].sender() == orig.subrange(
                            0,
                            i + 1,
                        )[k].sender() && updated1[k].offers() == orig.subrange(0, i + 1)[k].offers().push(
                            (e, oks1[k]),
                        ) by {
                            if k < i {
                                assert(updated1[k] == updated[k]);
                                assert(orig.subrange(0, i as int)[k] == orig.subrange(0, i + 1)[k]);
                            }
                        }
                        if ok {
                            kept_starts = kept_starts.push(s);
                        }
                        updated = updated1;
                        oks = oks1;
                    }
                    if ok {
                        kept.push(r);
                    }
                    assert(old_relays@ =~= orig.subrange(i + 1, n as int));
                }
                assert(orig.subrange(0, n as int) =~= orig);
                self.relays = kept;
                self.frames.push(e);
                proof {
                    self.starts@ = kept_starts;
                    assert(self.frames@ == frames1);
                    assert(each_offered(orig, updated, e, oks));
                }
            },
        }
    }

    /// A copy of every event received so far, in order: where a new relay starts.
    pub fn snapshot(&self) -> (res: Vec<FrameEvent>)
        ensures
            res@ == self.frames(),
    {
        super::share_all(&self.frames)
    }

    /// Records that no more log requests can arrive.
    pub fn on_requests_closed(&mut self)
        requires
            old(self).wf(),
        ensures
            final(self).wf(),
            !final(self).req_rx_ok(),
            final(self).frame_rx_ok() == old(self).frame_rx_ok(),
            final(self).frames() == old(self).frames(),
            final(self).relays() == old(self).relays(),
    {
        self.req_rx_ok = false;
    }

    /// Takes in the relay started for a log request from a snapshot of every event received so
    /// far (`None` when its reader was already gone). It is kept only while more events may
    /// arrive.
    pub fn on_relay_started(&mut self, relay: Option<FrameRelay>)
        requires
            old(self).wf(),
            relay matches Some(r) ==> r.offers().len() == 0,
        ensures
            final(self).wf(),
            final(self).frame_rx_ok() == old(self).frame_rx_ok(),
            final(self).req_rx_ok() == old(self).req_rx_ok(),
            final(self).frames() == old(self).frames(),
            match relay {
                Some(r) => if old(self).frame_rx_ok() {
                    &&& final(self).relays() == old(self).relays().push(r)
                    &&& final(self).starts() == old(self).starts().push(old(self).frames().len() as int)
                } else {
                    final(self).relays() == old(self).relays()
                },
                None => final(self).relays() == old(self).relays(),
            },
    {
        if let Some(r) = relay {
            if self.frame_rx_ok {
                proof {
                    assert(taken(
                        self.frames@.subrange(self.frames@.len() as int, self.frames@.len() as int),
                    ) =~= r.offers());
                    self.starts@ = self.starts@.push(self.frames@.len() as int);
                }
                self.relays.push(r);
            }
        }
    }
}

/// What each kept relay's reader is handed: the events before the relay started, as the copy it
/// started from, then every event since, each taken, in order. Together that is every event the
/// broadcaster has received.
pub proof fn lemma_kept_relay_gets_every_event(b: Broadcaster, i: int)
    requires
        b.wf(),
        0 <= i < b.relays().len(),
    ensures
        b.frames().subrange(0, b.starts()[i]) + offered_events(b.relays()[i].offers()) == b.frames(),
        forall|k: int|
            0 <= k < b.relays()[i].offers().len() ==> (#[trigger] b.relays()[i].offers()[k]).1,
{
    let r = b.relays()[i];
    let s = b.starts()[i];
    assert(offered_events(r.offers()) =~= b.frames().subrange(s, b.frames().len() as int));
    assert(b.frames().subrange(0, s) + b.frames().subrange(s, b.frames().len() as int) =~= b.frames());
}

} // verus!
