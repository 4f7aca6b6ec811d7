//! The broadcaster's end of the channel to one relay.

use vstd::prelude::*;

use super::FrameEvent;

verus! {

#[verifier::external_type_specification]
#[verifier::external_body]
#[verifier::reject_recursive_types(T)]
pub struct ExMpscSender<T>(tokio::sync::mpsc::Sender<T>);

/// The sending half of the channel from the broadcaster to one relay, with the record of every
/// event offered on it.
pub struct FrameRelay {
    bcast_tx: tokio::sync::mpsc::Sender<FrameEvent>,
    offers: Ghost<Seq<(FrameEvent, bool)>>,
}

impl FrameRelay {
    /// The channel the relay is handed events on.
    pub closed spec fn sender(&self) -> tokio::sync::mpsc::Sender<FrameEvent> {
        self.bcast_tx
    }

    /// Every event offered to the relay, in order, each with whether the relay took it.
    pub closed spec fn offers(&self) -> Seq<(FrameEvent, bool)> {
        self.offers@
    }

    /// A relay that is handed events on the given channel and has been offered nothing yet.
    pub fn new(bcast_tx: tokio::sync::mpsc::Sender<FrameEvent>) -> (res: Self)
        ensures
            res.sender() == bcast_tx,
            res.offers().len() == 0,
    {
        FrameRelay { bcast_tx, offers: Ghost(Seq::empty()) }
    }

    /// Offers an event to the relay with `tokio::sync::mpsc::Sender::try_send`; returns whether
    /// the relay took it.
    ///
    /// Trusted: `try_send` takes the sender by shared reference and never waits: it either puts
    /// the event in the channel and returns `Ok`, or fails because the channel is full or its
    /// receiver is gone. Which of these happens depends on the relay task, so the outcome is not
    /// stated. The channel stays the same, and the record of offers (ghost state, with nothing to
    /// do at run time) gains exactly this event with its outcome.
    #[verifier::external_body]
    pub(crate) fn accept(&mut self, frame: FrameEvent) -> (ok: bool)
        ensures
            final(self).sender() == old(self).sender(),
            final(self).offers() == old(self).offers().push((frame, ok)),
    {
        match self.bcast_tx.try_send(frame) {
            Ok(()) => true,
            Err(_) => false,
        }
    }
}

} // verus!
