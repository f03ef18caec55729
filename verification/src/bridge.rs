//! The event bridge: one message channel per notification kind. A firing host
//! callback enqueues a tagged message on its kind's channel; once per update
//! tick the drain step empties a channel in firing order. Messages for a
//! single kind keep FIFO order; no order holds across kinds.

use vstd::prelude::*;
use crate::channel::{pending_of, MessageChannel};
use crate::event::{EventType, PendingCallbackMessage};

verus! {

/// Owns the per-kind message channels of the bridge.
pub struct EventBridge {
    loadedmetadata: MessageChannel,
    canplay: MessageChannel,
    resize: MessageChannel,
    playing: MessageChannel,
    ended: MessageChannel,
    error: MessageChannel,
    cuechange: MessageChannel,
    timeupdate: MessageChannel,
}

impl EventBridge {
    /// The channel that carries kind `t`'s messages.
    closed spec fn channel_of(self, t: EventType) -> MessageChannel {
        match t {
            EventType::LoadedMetadata => self.loadedmetadata,
            EventType::CanPlay => self.canplay,
            EventType::Resize => self.resize,
            EventType::Playing => self.playing,
            EventType::Ended => self.ended,
            EventType::Error => self.error,
            EventType::CueChange => self.cuechange,
            EventType::TimeUpdate => self.timeupdate,
        }
    }

    /// The messages queued for kind `t`, in firing order.
    pub closed spec fn queue_of(self, t: EventType) -> Seq<PendingCallbackMessage> {
        pending_of(self.channel_of(t))
    }

    /// Every queued message sits on the channel of its own kind.
    pub open spec fn wf(self) -> bool {
        forall|t: EventType, i: int|
            0 <= i < self.queue_of(t).len() ==> (#[trigger] self.queue_of(t)[i]).event_type == t
    }

    /// Creates a bridge with one fresh, empty channel per notification kind.
    pub fn new() -> (r: EventBridge)
        ensures
            forall|t: EventType| (#[trigger] r.queue_of(t)) == Seq::<PendingCallbackMessage>::empty(),
            r.wf(),
    {
        let r = EventBridge {
            loadedmetadata: MessageChannel::new(),
            canplay: MessageChannel::new(),
            resize: MessageChannel::new(),
            playing: MessageChannel::new(),
            ended: MessageChannel::new(),
            error: MessageChannel::new(),
            cuechange: MessageChannel::new(),
            timeupdate: MessageChannel::new(),
        };
        proof {
            assert forall|t: EventType| (#[trigger] r.queue_of(t)) == Seq::<
                PendingCallbackMessage,
            >::empty() by {
                match t {
                    EventType::LoadedMetadata => {},
                    EventType::CanPlay => {},
                    EventType::Resize => {},
                    EventType::Playing => {},
                    EventType::Ended => {},
                    EventType::Error => {},
                    EventType::CueChange => {},
                    EventType::TimeUpdate => {},
                }
            }
        }
        r
    }

    /// Enqueues one pending message on its own kind's channel: what a single
    /// installed host callback does when its event fires, and nothing more.
    pub fn enqueue(&mut self, m: PendingCallbackMessage)
        requires
            old(self).wf(),
        ensures
            final (self).wf(),
            final (self).queue_of(m.event_type) == old(self).queue_of(m.event_type).push(m),
            forall|t: EventType|
                t != m.event_type ==> (#[trigger] final (self).queue_of(t)) == old(self).queue_of(
                    t,
                ),
    {
        match m.event_type {
            EventType::LoadedMetadata => self.loadedmetadata.send(m),
            EventType::CanPlay => self.canplay.send(m),
            EventType::Resize => self.resize.send(m),
            EventType::Playing => self.playing.send(m),
            EventType::Ended => self.ended.send(m),
            EventType::Error => self.error.send(m),
            EventType::CueChange => self.cuechange.send(m),
            EventType::TimeUpdate => self.timeupdate.send(m),
        }
        proof {
            assert forall|t: EventType|
                t != m.event_type implies (#[trigger] self.queue_of(t)) == old(self).queue_of(
                t,
            ) by {
                match t {
                    EventType::LoadedMetadata => {},
                    EventType::CanPlay => {},
                    EventType::Resize => {},
                    EventType::Playing => {},
                    EventType::Ended => {},
                    EventType::Error => {},
                    EventType::CueChange => {},
                    EventType::TimeUpdate => {},
                }
            }
            assert forall|t: EventType, i: int|
                0 <= i < self.queue_of(t).len() implies (#[trigger] self.queue_of(
                t,
            )[i]).event_type == t by {
                if t == m.event_type {
                    assert(self.queue_of(t) == old(self).queue_of(t).push(m));
                    if i < old(self).queue_of(t).len() {
                        assert(old(self).queue_of(t)[i].event_type == t);
                    }
                } else {
                    assert(self.queue_of(t) == old(self).queue_of(t));
                    assert(old(self).queue_of(t)[i].event_type == t);
                }
            }
        }
    }

    /// Empties kind `t`'s channel, returning every message that had fired
    /// since the last drain, in firing order. Draining zero messages is a
    /// normal outcome. No other kind's channel is touched.
    pub fn drain(&mut self, t: EventType) -> (r: Vec<PendingCallbackMessage>)
        requires
            old(self).wf(),
        ensures
            final (self).wf(),
            r@ == old(self).queue_of(t),
            final (self).queue_of(t) == Seq::<PendingCallbackMessage>::empty(),
            forall|u: EventType|
                u != t ==> (#[trigger] final (self).queue_of(u)) == old(self).queue_of(u),
            forall|i: int| 0 <= i < r@.len() ==> (#[trigger] r@[i]).event_type == t,
    {
        let r = match t {
            EventType::LoadedMetadata => drain_channel(&mut self.loadedmetadata),
            EventType::CanPlay => drain_channel(&mut self.canplay),
            EventType::Resize => drain_channel(&mut self.resize),
            EventType::Playing => drain_channel(&mut self.playing),
            EventType::Ended => drain_channel(&mut self.ended),
            EventType::Error => drain_channel(&mut self.error),
            EventType::CueChange => drain_channel(&mut self.cuechange),
            EventType::TimeUpdate => drain_channel(&mut self.timeupdate),
        };
        proof {
            assert forall|i: int| 0 <= i < r@.len() implies (#[trigger] r@[i]).event_type == t by {
                assert(old(self).queue_of(t)[i].event_type == t);
            }
            assert forall|u: EventType|
                u != t implies (#[trigger] self.queue_of(u)) == old(self).queue_of(u) by {
                match u {
                    EventType::LoadedMetadata => {},
                    EventType::CanPlay => {},
                    EventType::Resize => {},
                    EventType::Playing => {},
                    EventType::Ended => {},
                    EventType::Error => {},
                    EventType::CueChange => {},
                    EventType::TimeUpdate => {},
                }
            }
        }
        r
    }
}

/// Empties one channel in firing order, without blocking: pops until a poll
/// finds the channel empty.
fn drain_channel(ch: &mut MessageChannel) -> (r: Vec<PendingCallbackMessage>)
    ensures
        r@ == pending_of(*old(ch)),
        pending_of(*final (ch)) == Seq::<PendingCallbackMessage>::empty(),
{
    let mut out: Vec<PendingCallbackMessage> = Vec::new();
    let mut done = false;
    while !done
        invariant
            out@ + pending_of(*ch) == pending_of(*old(ch)),
            done ==> pending_of(*ch).len() == 0,
        decreases pending_of(*ch).len() + (if done {
            0int
        } else {
            1int
        }),
    {
        let ghost prev = *ch;
        match ch.try_recv() {
            Some(m) => {
                out.push(m);
                proof {
                    assert(out@ + pending_of(*ch) =~= pending_of(*old(ch)));
                }
            },
            None => {
                done = true;
            },
        }
    }
    proof {
        assert(out@ =~= pending_of(*old(ch)));
    }
    out
}

} // verus!
