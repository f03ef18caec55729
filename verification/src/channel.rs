//! The one-way message channel a host callback enqueues on and the per-tick
//! drain empties. Backed by an unbounded `crossbeam_channel` queue; both
//! halves live in one value, so the channel stays connected for as long as
//! the value does.

use vstd::prelude::*;
use crate::event::PendingCallbackMessage;

verus! {

/// One notification kind's message queue: the sending half a firing callback
/// uses and the receiving half the per-tick drain reads, kept together.
#[verifier::external_body]
pub struct MessageChannel {
    sender: crossbeam_channel::Sender<PendingCallbackMessage>,
    receiver: crossbeam_channel::Receiver<PendingCallbackMessage>,
}

/// The messages queued in `ch`, in firing order: sent but not yet drained.
pub uninterp spec fn pending_of(ch: MessageChannel) -> Seq<PendingCallbackMessage>;

impl MessageChannel {
    /// Relies on crossbeam_channel::unbounded: a newly created channel holds
    /// no messages.
    #[verifier::external_body]
    pub(crate) fn new() -> (r: MessageChannel)
        ensures
            pending_of(r) == Seq::<PendingCallbackMessage>::empty(),
    {
        let (sender, receiver) = crossbeam_channel::unbounded();
        MessageChannel { sender, receiver }
    }

    /// Relies on crossbeam_channel::Sender::send: on an unbounded channel it
    /// enqueues the message at the back without blocking, and fails only when
    /// the channel is disconnected, which cannot happen while the receiving
    /// half is alive in the same struct.
    #[verifier::external_body]
    pub(crate) fn send(&mut self, m: PendingCallbackMessage)
        ensures
            pending_of(*final (self)) == pending_of(*old(self)).push(m),
    {
        let _ = self.sender.send(m);
    }

    /// Relies on crossbeam_channel::Receiver::try_recv: without blocking, it
    /// pops the message that has waited longest, or reports the channel empty.
    #[verifier::external_body]
    pub(crate) fn try_recv(&mut self) -> (r: Option<PendingCallbackMessage>)
        ensures
            pending_of(*old(self)).len() == 0 ==> r is None && pending_of(*final (self))
                == pending_of(*old(self)),
            pending_of(*old(self)).len() > 0 ==> r == Some(pending_of(*old(self))[0])
                && pending_of(*final (self)) == pending_of(*old(self)).subrange(
                1,
                pending_of(*old(self)).len() as int,
            ),
    {
        self.receiver.try_recv().ok()
    }
}

} // verus!
