//! The resource lifecycle manager. One context owns the registry, the event
//! bridge and the video asset store, and moves every resource through its
//! states in lockstep with the owning asset: created and inserted, system
//! listeners attached, only then exposed through a creation notification;
//! marked renderable on the playing notification; evicted on removal, after
//! which in-flight messages for the id are discarded at drain time.

use vstd::prelude::*;
use crate::bridge::EventBridge;
use crate::event::{EventType, ListenerEvent, PendingCallbackMessage};
use crate::image::{spec_video_target_image, Image};
use crate::registry::{
    internal_listener, internal_listeners, system_listeners_attached, ElementHandle,
    ListenerHandle, RegisteredElement, VideoElementRegistry,
};
use crate::store::{has_key, remove_key, unique_keys, value_of, KeyedStore};

verus! {

/// The asset-facing wrapper for one video resource: where its frames go and
/// whether a decoded frame is guaranteed available.
#[derive(Clone, Copy, PartialEq, Eq, Structural, Debug)]
pub struct VideoElement {
    /// The id of the destination image asset this resource populates.
    pub target_image_id: u64,
    /// True only after a playing notification: at least one decoded frame is
    /// guaranteed available for the extraction step to copy.
    pub renderable: bool,
}

impl VideoElement {
    /// A fresh resource wrapper targeting `target_image_id`, not yet
    /// renderable.
    pub fn new(target_image_id: u64) -> (r: VideoElement)
        ensures
            r == (VideoElement { target_image_id, renderable: false }),
    {
        VideoElement { target_image_id, renderable: false }
    }

    /// The id of the destination image asset.
    pub fn target_image_id(&self) -> (r: u64)
        ensures
            r == self.target_image_id,
    {
        self.target_image_id
    }

    /// Whether the extraction step will copy frames for this resource.
    pub fn is_renderable(&self) -> (r: bool)
        ensures
            r == self.renderable,
    {
        self.renderable
    }
}

/// The notification that a resource finished creation: broadcast only after
/// every system listener is attached, so its receiver may immediately
/// configure the resource.
#[derive(Clone, Copy, PartialEq, Eq, Structural, Debug)]
pub struct VideoElementCreated {
    video_element_id: u64,
}

impl VideoElementCreated {
    /// The id of the newly created resource.
    pub closed spec fn spec_video_element_id(&self) -> u64 {
        self.video_element_id
    }

    /// Returns the id of the newly created resource.
    pub fn video_element_id(&self) -> (r: u64)
        ensures
            r == self.spec_video_element_id(),
    {
        self.video_element_id
    }
}

/// Whether a playback error notification evicts the resource or leaves it in
/// place for a possible recovery.
#[derive(Clone, Copy, PartialEq, Eq, Structural, Debug)]
pub enum ErrorPolicy {
    /// Playback may recover: the resource stays registered and keeps its
    /// renderable flag.
    Recoverable,
    /// Errors are terminal: the resource is evicted as if removed.
    Terminal,
}

/// A registered entry's listener discipline: the six system subscriptions
/// stand first, in attachment order, and every later subscription is a
/// user-registered one — so no internal (id, kind) pair is ever doubled.
pub open spec fn entry_listeners_wf(ls: Seq<ListenerHandle>) -> bool {
    &&& ls.len() >= 6
    &&& ls.subrange(0, 6) == internal_listeners()
    &&& forall|i: int| 6 <= i < ls.len() ==> !(#[trigger] ls[i]).internal
}

/// The messages the host enqueues when it fires kind `t` on resource
/// `asset_id`: one per attached subscription for `t`, in attachment order,
/// each carrying the subscription's target.
pub open spec fn fired_messages(ls: Seq<ListenerHandle>, asset_id: u64, t: EventType) -> Seq<
    PendingCallbackMessage,
>
    decreases ls.len(),
{
    if ls.len() == 0 {
        Seq::empty()
    } else {
        let rest = fired_messages(ls.drop_last(), asset_id, t);
        if ls.last().event_type == t {
            rest.push(
                PendingCallbackMessage { event_type: t, asset_id, target: ls.last().target },
            )
        } else {
            rest
        }
    }
}

/// The notifications a drain delivers from the queued messages `msgs`: one
/// per message whose resource is still registered in `reg`, in firing order;
/// messages for ids no longer registered are discarded.
pub open spec fn dispatched_events(
    msgs: Seq<PendingCallbackMessage>,
    reg: Seq<(u64, RegisteredElement)>,
) -> Seq<ListenerEvent>
    decreases msgs.len(),
{
    if msgs.len() == 0 {
        Seq::empty()
    } else {
        let rest = dispatched_events(msgs.drop_last(), reg);
        let m = msgs.last();
        if has_key(reg, m.asset_id) {
            rest.push(
                ListenerEvent { event_type: m.event_type, asset_id: m.asset_id, target: m.target },
            )
        } else {
            rest
        }
    }
}

/// Whether a dimension notification for `asset_id` reaches the image store:
/// the resource is known and registered, and neither dimension is zero.
pub open spec fn resize_applies(
    videos: Seq<(u64, VideoElement)>,
    reg: Seq<(u64, RegisteredElement)>,
    asset_id: u64,
    width: u32,
    height: u32,
) -> bool {
    has_key(videos, asset_id) && has_key(reg, asset_id) && width > 0 && height > 0
}

/// The image store after the resize handler runs for `asset_id` with a
/// snapshot of dimensions `width` x `height`: the resource's destination
/// image is replaced whole by a fresh allocation of exactly those dimensions;
/// an unregistered or unknown resource, or a zero dimension, changes nothing.
pub open spec fn resized_images(
    images: Seq<(u64, Image)>,
    videos: Seq<(u64, VideoElement)>,
    reg: Seq<(u64, RegisteredElement)>,
    asset_id: u64,
    width: u32,
    height: u32,
) -> Seq<(u64, Image)> {
    if resize_applies(videos, reg, asset_id, width, height) {
        let target = value_of(videos, asset_id).target_image_id;
        remove_key(images, target).push((target, spec_video_target_image(width, height)))
    } else {
        images
    }
}

/// The video store after the playing or ended handler runs for `asset_id`:
/// the resource's renderable flag is set to `renderable`, its target kept;
/// an unknown resource changes nothing.
pub open spec fn set_renderable(
    videos: Seq<(u64, VideoElement)>,
    asset_id: u64,
    renderable: bool,
) -> Seq<(u64, VideoElement)> {
    if has_key(videos, asset_id) {
        let target = value_of(videos, asset_id).target_image_id;
        remove_key(videos, asset_id).push(
            (asset_id, VideoElement { target_image_id: target, renderable }),
        )
    } else {
        videos
    }
}

/// The dependency-injected context owning every piece of bridge state: the
/// registry, the per-kind channels, the video asset store and the error
/// policy. Constructed explicitly so tests build isolated instances.
pub struct WebVideoContext {
    registry: VideoElementRegistry,
    bridge: EventBridge,
    video_elements: KeyedStore<VideoElement>,
    policy: ErrorPolicy,
}

impl WebVideoContext {
    /// The registry of live resource entries.
    pub closed spec fn spec_registry(&self) -> VideoElementRegistry {
        self.registry
    }

    /// The event bridge.
    pub closed spec fn spec_bridge(&self) -> EventBridge {
        self.bridge
    }

    /// The video asset store's entries.
    pub closed spec fn spec_videos(&self) -> Seq<(u64, VideoElement)> {
        self.video_elements@
    }

    /// The configured error policy.
    pub closed spec fn spec_policy(&self) -> ErrorPolicy {
        self.policy
    }

    /// The messages queued for kind `t`, in firing order.
    pub open spec fn spec_queue(&self, t: EventType) -> Seq<PendingCallbackMessage> {
        self.spec_bridge().queue_of(t)
    }

    /// Whether a resource entry is registered for `asset_id`.
    pub open spec fn spec_registered(&self, asset_id: u64) -> bool {
        self.spec_registry().spec_registered(asset_id)
    }

    /// The subscriptions attached for `asset_id`; meaningful only when
    /// registered.
    pub open spec fn spec_listeners(&self, asset_id: u64) -> Seq<ListenerHandle> {
        self.spec_registry().spec_listeners(asset_id)
    }

    /// Well-formedness: unique keys in registry and asset store, every queued
    /// message on its own kind's channel, and every registered entry carrying
    /// the full system listener set ahead of user subscriptions.
    pub open spec fn wf(&self) -> bool {
        &&& self.spec_registry().wf()
        &&& unique_keys(self.spec_videos())
        &&& self.spec_bridge().wf()
        &&& forall|id: u64| #[trigger]
            has_key(self.spec_registry()@, id) ==> entry_listeners_wf(
                self.spec_registry().spec_listeners(id),
            )
    }

    /// Creates an empty context with the given error policy.
    pub fn new(policy: ErrorPolicy) -> (r: WebVideoContext)
        ensures
            r.wf(),
            r.spec_registry()@ == Seq::<(u64, RegisteredElement)>::empty(),
            r.spec_videos() == Seq::<(u64, VideoElement)>::empty(),
            forall|t: EventType| (#[trigger] r.spec_queue(t)) == Seq::<
                PendingCallbackMessage,
            >::empty(),
            r.spec_policy() == policy,
    {
        WebVideoContext {
            registry: VideoElementRegistry::new(),
            bridge: EventBridge::new(),
            video_elements: KeyedStore::new(),
            policy,
        }
    }

    /// Read access to the registry, for lookups during the update tick.
    pub fn registry(&self) -> (r: &VideoElementRegistry)
        ensures
            *r == self.spec_registry(),
    {
        &self.registry
    }

    /// The number of video assets the store holds.
    pub fn video_count(&self) -> (n: usize)
        ensures
            n == self.spec_videos().len(),
    {
        self.video_elements.len()
    }

    /// The id and wrapper of the video asset at store position `i`.
    pub fn video_at(&self, i: usize) -> (r: (u64, VideoElement))
        requires
            i < self.spec_videos().len(),
        ensures
            r == self.spec_videos()[i as int],
    {
        (self.video_elements.key_at(i), *self.video_elements.value_at(i))
    }

    /// Looks up the asset-facing wrapper for `asset_id`.
    pub fn video_element(&self, asset_id: u64) -> (r: Option<VideoElement>)
        requires
            self.wf(),
        ensures
            r == if has_key(self.spec_videos(), asset_id) {
                Some(value_of(self.spec_videos(), asset_id))
            } else {
                None::<VideoElement>
            },
    {
        match self.video_elements.get(asset_id) {
            Some(v) => Some(*v),
            None => None,
        }
    }

    /// Creates a resource: stores the asset wrapper, inserts the registry
    /// entry for the host element, attaches all six system listeners, and
    /// only then returns the creation notification — so by the time any
    /// consumer can observe the resource, its listener state is complete.
    pub fn create_resource(
        &mut self,
        asset_id: u64,
        target_image_id: u64,
        element: ElementHandle,
    ) -> (created: VideoElementCreated)
        requires
            old(self).wf(),
            !old(self).spec_registered(asset_id),
            !has_key(old(self).spec_videos(), asset_id),
        ensures
            final (self).wf(),
            created.spec_video_element_id() == asset_id,
            final (self).spec_registered(asset_id),
            final (self).spec_registry().spec_entry(asset_id).spec_element() == element,
            final (self).spec_listeners(asset_id) == internal_listeners(),
            system_listeners_attached(final (self).spec_listeners(asset_id)),
            has_key(final (self).spec_videos(), asset_id),
            value_of(final (self).spec_videos(), asset_id) == (VideoElement {
                target_image_id,
                renderable: false,
            }),
            final (self).spec_bridge() == old(self).spec_bridge(),
            final (self).spec_policy() == old(self).spec_policy(),
            forall|k2: u64|
                k2 != asset_id ==> #[trigger] has_key(final (self).spec_registry()@, k2) == has_key(
                    old(self).spec_registry()@,
                    k2,
                ),
            forall|k2: u64|
                k2 != asset_id && has_key(old(self).spec_registry()@, k2) ==> #[trigger] value_of(
                    final (self).spec_registry()@,
                    k2,
                ) == value_of(old(self).spec_registry()@, k2),
            forall|k2: u64|
                k2 != asset_id ==> #[trigger] has_key(final (self).spec_videos(), k2) == has_key(
                    old(self).spec_videos(),
                    k2,
                ),
            forall|k2: u64|
                k2 != asset_id && has_key(old(self).spec_videos(), k2) ==> #[trigger] value_of(
                    final (self).spec_videos(),
                    k2,
                ) == value_of(old(self).spec_videos(), k2),
    {
        self.video_elements.insert_new(asset_id, VideoElement::new(target_image_id));
        self.registry.insert(asset_id, element);
        self.registry.add_event_listener(asset_id, internal_handle(EventType::LoadedMetadata));
        self.registry.add_event_listener(asset_id, internal_handle(EventType::CanPlay));
        self.registry.add_event_listener(asset_id, internal_handle(EventType::Resize));
        self.registry.add_event_listener(asset_id, internal_handle(EventType::Playing));
        self.registry.add_event_listener(asset_id, internal_handle(EventType::Ended));
        self.registry.add_event_listener(asset_id, internal_handle(EventType::Error));
        proof {
            assert(self.spec_listeners(asset_id) =~= internal_listeners());
            assert(self.spec_listeners(asset_id).subrange(0, 6) =~= internal_listeners());
            lemma_internal_listeners_attached(self.spec_listeners(asset_id));
            assert forall|id: u64| #[trigger]
                has_key(self.spec_registry()@, id) implies entry_listeners_wf(
                self.spec_registry().spec_listeners(id),
            ) by {
                if id == asset_id {
                    assert(self.spec_listeners(asset_id).subrange(0, 6) =~= internal_listeners());
                } else {
                    assert(has_key(old(self).spec_registry()@, id));
                    assert(self.spec_registry().spec_listeners(id) == old(
                        self,
                    ).spec_registry().spec_listeners(id));
                }
            }
        }
        VideoElementCreated { video_element_id: asset_id }
    }

    /// Destroys a resource in lockstep with its owning asset's removal: the
    /// registry entry is evicted — dropping it detaches every host callback —
    /// and the asset wrapper is dropped. The evicted entry is returned for
    /// optional inspection. After this, no further message for `asset_id` can
    /// be enqueued, and messages already in flight are discarded at drain.
    pub fn remove_resource(&mut self, asset_id: u64) -> (evicted: Option<RegisteredElement>)
        requires
            old(self).wf(),
        ensures
            final (self).wf(),
            !final (self).spec_registered(asset_id),
            !has_key(final (self).spec_videos(), asset_id),
            evicted == if old(self).spec_registered(asset_id) {
                Some(old(self).spec_registry().spec_entry(asset_id))
            } else {
                None::<RegisteredElement>
            },
            final (self).spec_registry()@ == remove_key(old(self).spec_registry()@, asset_id),
            final (self).spec_videos() == remove_key(old(self).spec_videos(), asset_id),
            final (self).spec_bridge() == old(self).spec_bridge(),
            final (self).spec_policy() == old(self).spec_policy(),
            forall|k2: u64|
                k2 != asset_id ==> #[trigger] has_key(final (self).spec_registry()@, k2) == has_key(
                    old(self).spec_registry()@,
                    k2,
                ),
            forall|k2: u64|
                k2 != asset_id && has_key(old(self).spec_registry()@, k2) ==> #[trigger] value_of(
                    final (self).spec_registry()@,
                    k2,
                ) == value_of(old(self).spec_registry()@, k2),
    {
        let evicted = self.registry.remove(asset_id);
        let _ = self.video_elements.remove(asset_id);
        proof {
            assert forall|id: u64| #[trigger]
                has_key(self.spec_registry()@, id) implies entry_listeners_wf(
                self.spec_registry().spec_listeners(id),
            ) by {
                assert(id != asset_id);
                assert(has_key(old(self).spec_registry()@, id));
                assert(self.spec_registry().spec_listeners(id) == old(
                    self,
                ).spec_registry().spec_listeners(id));
            }
        }
        evicted
    }

    /// Registers a user-level observer: one more subscription on the
    /// resource's entry, addressed to the consumer `target`. Without a
    /// registered entry, nothing happens — the resource is gone.
    pub fn add_video_event_listener(&mut self, asset_id: u64, event_type: EventType, target: u64)
        requires
            old(self).wf(),
        ensures
            final (self).wf(),
            old(self).spec_registered(asset_id) ==> final (self).spec_listeners(asset_id) == old(
                self,
            ).spec_listeners(asset_id).push(
                ListenerHandle { event_type, target: Some(target), internal: false },
            ),
            !old(self).spec_registered(asset_id) ==> final (self).spec_registry()@ == old(
                self,
            ).spec_registry()@,
            forall|k2: u64| #[trigger]
                has_key(final (self).spec_registry()@, k2) == has_key(
                    old(self).spec_registry()@,
                    k2,
                ),
            forall|k2: u64|
                k2 != asset_id && has_key(old(self).spec_registry()@, k2) ==> #[trigger] value_of(
                    final (self).spec_registry()@,
                    k2,
                ) == value_of(old(self).spec_registry()@, k2),
            old(self).spec_registered(asset_id) ==> final (self).spec_registry().spec_entry(
                asset_id,
            ).spec_element() == old(self).spec_registry().spec_entry(asset_id).spec_element(),
            final (self).spec_videos() == old(self).spec_videos(),
            final (self).spec_bridge() == old(self).spec_bridge(),
            final (self).spec_policy() == old(self).spec_policy(),
    {
        let handle = ListenerHandle { event_type, target: Some(target), internal: false };
        self.registry.add_event_listener(asset_id, handle);
        proof {
            assert forall|id: u64| #[trigger]
                has_key(self.spec_registry()@, id) implies entry_listeners_wf(
                self.spec_registry().spec_listeners(id),
            ) by {
                assert(has_key(old(self).spec_registry()@, id));
                if id == asset_id && old(self).spec_registered(asset_id) {
                    let ls0 = old(self).spec_registry().spec_listeners(id);
                    let ls1 = self.spec_registry().spec_listeners(id);
                    assert(ls1 == ls0.push(handle));
                    assert(ls1.subrange(0, 6) =~= ls0.subrange(0, 6));
                    assert forall|i: int| 6 <= i < ls1.len() implies !(#[trigger] ls1[i]).internal by {
                        if i < ls0.len() {
                            assert(!ls0[i].internal);
                        }
                    }
                } else {
                    assert(self.spec_registry().spec_listeners(id) == old(
                        self,
                    ).spec_registry().spec_listeners(id));
                }
            }
        }
    }

    /// What one installed host callback does when its event fires: enqueue a
    /// single tagged message on its kind's channel, and nothing else — no
    /// registry access, no rendering. Host callbacks may run at any time
    /// relative to the tick; this is their only way into bridge state.
    pub fn callback_fired(&mut self, asset_id: u64, event_type: EventType, target: Option<u64>)
        requires
            old(self).wf(),
        ensures
            final (self).wf(),
            final (self).spec_queue(event_type) == old(self).spec_queue(event_type).push(
                PendingCallbackMessage { event_type, asset_id, target },
            ),
            forall|t: EventType|
                t != event_type ==> (#[trigger] final (self).spec_queue(t)) == old(self).spec_queue(
                    t,
                ),
            final (self).spec_registry() == old(self).spec_registry(),
            final (self).spec_videos() == old(self).spec_videos(),
            final (self).spec_policy() == old(self).spec_policy(),
    {
        self.bridge.enqueue(PendingCallbackMessage { event_type, asset_id, target });
    }

    /// The host fires the named event of kind `event_type` on resource
    /// `asset_id`: every subscription attached for that kind fires its
    /// callback once, in attachment order, enqueueing one message each. A
    /// removed resource has no subscriptions left, so nothing is enqueued.
    pub fn host_fire(&mut self, asset_id: u64, event_type: EventType)
        requires
            old(self).wf(),
        ensures
            final (self).wf(),
            old(self).spec_registered(asset_id) ==> final (self).spec_queue(event_type) == old(
                self,
            ).spec_queue(event_type) + fired_messages(
                old(self).spec_listeners(asset_id),
                asset_id,
                event_type,
            ),
            !old(self).spec_registered(asset_id) ==> forall|t: EventType|
                (#[trigger] final (self).spec_queue(t)) == old(self).spec_queue(t),
            forall|t: EventType|
                t != event_type ==> (#[trigger] final (self).spec_queue(t)) == old(self).spec_queue(
                    t,
                ),
            final (self).spec_registry() == old(self).spec_registry(),
            final (self).spec_videos() == old(self).spec_videos(),
            final (self).spec_policy() == old(self).spec_policy(),
    {
        let entry = match self.registry.get(asset_id) {
            Some(e) => e,
            None => {
                return ;
            },
        };
        let n = entry.listener_count();
        let ghost ls = entry.spec_listeners();
        let mut i: usize = 0;
        while i < n
            invariant
                old(self).wf(),
                self.bridge.wf(),
                n == ls.len(),
                i <= n,
                ls == old(self).spec_listeners(asset_id),
                entry.spec_listeners() == ls,
                self.bridge.queue_of(event_type) == old(self).spec_queue(event_type)
                    + fired_messages(ls.take(i as int), asset_id, event_type),
                forall|t: EventType|
                    t != event_type ==> (#[trigger] self.bridge.queue_of(t)) == old(
                        self,
                    ).spec_queue(t),
                self.registry == old(self).registry,
                self.video_elements == old(self).video_elements,
                self.policy == old(self).policy,
            decreases n - i,
        {
            let l = entry.listener_at(i);
            proof {
                assert(ls.take(i as int + 1).drop_last() =~= ls.take(i as int));
                assert(ls.take(i as int + 1).last() == ls[i as int]);
            }
            if l.event_type == event_type {
                let ghost q0 = self.bridge.queue_of(event_type);
                self.bridge.enqueue(
                    PendingCallbackMessage { event_type, asset_id, target: l.target },
                );
                proof {
                    assert(self.bridge.queue_of(event_type) =~= old(self).spec_queue(event_type)
                        + fired_messages(ls.take(i as int + 1), asset_id, event_type));
                }
            }
            i += 1;
        }
        proof {
            assert(ls.take(n as int) =~= ls);
        }
    }

    /// The per-tick drain for kind `event_type`: empties that kind's channel
    /// and converts each message into a tick-synchronous notification, in
    /// firing order — except messages whose resource id is no longer
    /// registered, which are discarded: the sole cancellation check. The
    /// drain touches no registry entry, no asset and no image.
    pub fn drain_and_dispatch(&mut self, event_type: EventType) -> (events: Vec<ListenerEvent>)
        requires
            old(self).wf(),
        ensures
            final (self).wf(),
            events@ == dispatched_events(
                old(self).spec_queue(event_type),
                old(self).spec_registry()@,
            ),
            forall|i: int|
                0 <= i < events@.len() ==> (#[trigger] events@[i]).event_type == event_type
                    && has_key(old(self).spec_registry()@, events@[i].asset_id),
            final (self).spec_queue(event_type) == Seq::<PendingCallbackMessage>::empty(),
            forall|t: EventType|
                t != event_type ==> (#[trigger] final (self).spec_queue(t)) == old(self).spec_queue(
                    t,
                ),
            final (self).spec_registry() == old(self).spec_registry(),
            final (self).spec_videos() == old(self).spec_videos(),
            final (self).spec_policy() == old(self).spec_policy(),
    {
        let msgs = self.bridge.drain(event_type);
        let mut events: Vec<ListenerEvent> = Vec::new();
        let n = msgs.len();
        let mut i: usize = 0;
        while i < n
            invariant
                old(self).wf(),
                n == msgs@.len(),
                i <= n,
                self.registry == old(self).registry,
                events@ == dispatched_events(msgs@.take(i as int), self.spec_registry()@),
                forall|j: int| 0 <= j < msgs@.len() ==> (#[trigger] msgs@[j]).event_type
                    == event_type,
                forall|j: int|
                    0 <= j < events@.len() ==> (#[trigger] events@[j]).event_type == event_type
                        && has_key(self.spec_registry()@, events@[j].asset_id),
            decreases n - i,
        {
            let m = msgs[i];
            proof {
                assert(msgs@.take(i as int + 1).drop_last() =~= msgs@.take(i as int));
                assert(msgs@.take(i as int + 1).last() == msgs@[i as int]);
            }
            if self.registry.contains(m.asset_id) {
                events.push(ListenerEvent::new(m.event_type, m.asset_id, m.target));
            }
            i += 1;
        }
        proof {
            assert(msgs@.take(n as int) =~= msgs@);
        }
        events
    }

    /// The metadata-loaded handler: the stream's dimensions are known, so the
    /// destination image is (re)allocated to the snapshot `width` x `height`.
    pub fn on_loadedmetadata(
        &self,
        asset_id: u64,
        width: u32,
        height: u32,
        images: &mut KeyedStore<Image>,
    )
        requires
            self.wf(),
            old(images).wf(),
        ensures
            final (images).wf(),
            final (images)@ == resized_images(
                old(images)@,
                self.spec_videos(),
                self.spec_registry()@,
                asset_id,
                width,
                height,
            ),
            resize_applies(self.spec_videos(), self.spec_registry()@, asset_id, width, height)
                ==> has_key(
                final (images)@,
                value_of(self.spec_videos(), asset_id).target_image_id,
            ) && value_of(
                final (images)@,
                value_of(self.spec_videos(), asset_id).target_image_id,
            ) == spec_video_target_image(width, height),
            !resize_applies(self.spec_videos(), self.spec_registry()@, asset_id, width, height)
                ==> final (images)@ == old(images)@,
            forall|k2: u64|
                k2 != value_of(self.spec_videos(), asset_id).target_image_id
                    ==> #[trigger] has_key(final (images)@, k2) == has_key(old(images)@, k2),
            forall|k2: u64|
                k2 != value_of(self.spec_videos(), asset_id).target_image_id && has_key(
                    old(images)@,
                    k2,
                ) ==> #[trigger] value_of(final (images)@, k2) == value_of(old(images)@, k2),
    {
        self.resize_image(asset_id, width, height, images);
    }

    /// The can-play handler: enough data is buffered; the destination image
    /// is (re)allocated to the current dimensions, like on metadata.
    pub fn on_canplay(
        &self,
        asset_id: u64,
        width: u32,
        height: u32,
        images: &mut KeyedStore<Image>,
    )
        requires
            self.wf(),
            old(images).wf(),
        ensures
            final (images).wf(),
            final (images)@ == resized_images(
                old(images)@,
                self.spec_videos(),
                self.spec_registry()@,
                asset_id,
                width,
                height,
            ),
            resize_applies(self.spec_videos(), self.spec_registry()@, asset_id, width, height)
                ==> has_key(
                final (images)@,
                value_of(self.spec_videos(), asset_id).target_image_id,
            ) && value_of(
                final (images)@,
                value_of(self.spec_videos(), asset_id).target_image_id,
            ) == spec_video_target_image(width, height),
            !resize_applies(self.spec_videos(), self.spec_registry()@, asset_id, width, height)
                ==> final (images)@ == old(images)@,
            forall|k2: u64|
                k2 != value_of(self.spec_videos(), asset_id).target_image_id
                    ==> #[trigger] has_key(final (images)@, k2) == has_key(old(images)@, k2),
            forall|k2: u64|
                k2 != value_of(self.spec_videos(), asset_id).target_image_id && has_key(
                    old(images)@,
                    k2,
                ) ==> #[trigger] value_of(final (images)@, k2) == value_of(old(images)@, k2),
    {
        self.resize_image(asset_id, width, height, images);
    }

    /// The resize handler: the stream's dimensions changed mid-playback; the
    /// destination image is reallocated. Each resize is independent and
    /// non-fatal, and may repeat any number of times.
    pub fn on_resize(
        &self,
        asset_id: u64,
        width: u32,
        height: u32,
        images: &mut KeyedStore<Image>,
    )
        requires
            self.wf(),
            old(images).wf(),
        ensures
            final (images).wf(),
            final (images)@ == resized_images(
                old(images)@,
                self.spec_videos(),
                self.spec_registry()@,
                asset_id,
                width,
                height,
            ),
            resize_applies(self.spec_videos(), self.spec_registry()@, asset_id, width, height)
                ==> has_key(
                final (images)@,
                value_of(self.spec_videos(), asset_id).target_image_id,
            ) && value_of(
                final (images)@,
                value_of(self.spec_videos(), asset_id).target_image_id,
            ) == spec_video_target_image(width, height),
            !resize_applies(self.spec_videos(), self.spec_registry()@, asset_id, width, height)
                ==> final (images)@ == old(images)@,
            forall|k2: u64|
                k2 != value_of(self.spec_videos(), asset_id).target_image_id
                    ==> #[trigger] has_key(final (images)@, k2) == has_key(old(images)@, k2),
            forall|k2: u64|
                k2 != value_of(self.spec_videos(), asset_id).target_image_id && has_key(
                    old(images)@,
                    k2,
                ) ==> #[trigger] value_of(final (images)@, k2) == value_of(old(images)@, k2),
    {
        self.resize_image(asset_id, width, height, images);
    }

    /// Replaces the resource's destination image with a fresh allocation of
    /// the given dimensions. Skips silently when the resource is unknown or
    /// gone, or when a dimension is still zero.
    fn resize_image(&self, asset_id: u64, width: u32, height: u32, images: &mut KeyedStore<Image>)
        requires
            self.wf(),
            old(images).wf(),
        ensures
            final (images).wf(),
            final (images)@ == resized_images(
                old(images)@,
                self.spec_videos(),
                self.spec_registry()@,
                asset_id,
                width,
                height,
            ),
            resize_applies(self.spec_videos(), self.spec_registry()@, asset_id, width, height)
                ==> has_key(
                final (images)@,
                value_of(self.spec_videos(), asset_id).target_image_id,
            ) && value_of(
                final (images)@,
                value_of(self.spec_videos(), asset_id).target_image_id,
            ) == spec_video_target_image(width, height),
            !resize_applies(self.spec_videos(), self.spec_registry()@, asset_id, width, height)
                ==> final (images)@ == old(images)@,
            forall|k2: u64|
                k2 != value_of(self.spec_videos(), asset_id).target_image_id
                    ==> #[trigger] has_key(final (images)@, k2) == has_key(old(images)@, k2),
            forall|k2: u64|
                k2 != value_of(self.spec_videos(), asset_id).target_image_id && has_key(
                    old(images)@,
                    k2,
                ) ==> #[trigger] value_of(final (images)@, k2) == value_of(old(images)@, k2),
    {
        let video = match self.video_elements.get(asset_id) {
            Some(v) => *v,
            None => {
                return ;
            },
        };
        if !self.registry.contains(asset_id) {
            return ;
        }
        if width == 0 || height == 0 {
            return ;
        }
        images.upsert(video.target_image_id, Image::for_video_frame(width, height));
    }

    /// The playing handler: playback started, so at least one decoded frame
    /// is available — the resource becomes renderable.
    pub fn on_playing(&mut self, asset_id: u64)
        requires
            old(self).wf(),
        ensures
            final (self).wf(),
            final (self).spec_videos() == set_renderable(old(self).spec_videos(), asset_id, true),
            forall|k2: u64| #[trigger]
                has_key(final (self).spec_videos(), k2) == has_key(old(self).spec_videos(), k2),
            has_key(old(self).spec_videos(), asset_id) ==> value_of(
                final (self).spec_videos(),
                asset_id,
            ) == (VideoElement {
                target_image_id: value_of(old(self).spec_videos(), asset_id).target_image_id,
                renderable: true,
            }),
            forall|k2: u64|
                k2 != asset_id && has_key(old(self).spec_videos(), k2) ==> #[trigger] value_of(
                    final (self).spec_videos(),
                    k2,
                ) == value_of(old(self).spec_videos(), k2),
            final (self).spec_registry() == old(self).spec_registry(),
            final (self).spec_bridge() == old(self).spec_bridge(),
            final (self).spec_policy() == old(self).spec_policy(),
    {
        self.set_renderable_flag(asset_id, true);
    }

    /// The ended handler: the stream reached its end, so extraction pauses —
    /// the resource stops being renderable, but its entry persists.
    pub fn on_ended(&mut self, asset_id: u64)
        requires
            old(self).wf(),
        ensures
            final (self).wf(),
            final (self).spec_videos() == set_renderable(old(self).spec_videos(), asset_id, false),
            forall|k2: u64| #[trigger]
                has_key(final (self).spec_videos(), k2) == has_key(old(self).spec_videos(), k2),
            has_key(old(self).spec_videos(), asset_id) ==> value_of(
                final (self).spec_videos(),
                asset_id,
            ) == (VideoElement {
                target_image_id: value_of(old(self).spec_videos(), asset_id).target_image_id,
                renderable: false,
            }),
            forall|k2: u64|
                k2 != asset_id && has_key(old(self).spec_videos(), k2) ==> #[trigger] value_of(
                    final (self).spec_videos(),
                    k2,
                ) == value_of(old(self).spec_videos(), k2),
            final (self).spec_registry() == old(self).spec_registry(),
            final (self).spec_bridge() == old(self).spec_bridge(),
            final (self).spec_policy() == old(self).spec_policy(),
    {
        self.set_renderable_flag(asset_id, false);
    }

    /// Sets the renderable flag of `asset_id`'s wrapper, keeping its target.
    fn set_renderable_flag(&mut self, asset_id: u64, renderable: bool)
        requires
            old(self).wf(),
        ensures
            final (self).wf(),
            final (self).spec_videos() == set_renderable(
                old(self).spec_videos(),
                asset_id,
                renderable,
            ),
            forall|k2: u64| #[trigger]
                has_key(final (self).spec_videos(), k2) == has_key(old(self).spec_videos(), k2),
            has_key(old(self).spec_videos(), asset_id) ==> value_of(
                final (self).spec_videos(),
                asset_id,
            ) == (VideoElement {
                target_image_id: value_of(old(self).spec_videos(), asset_id).target_image_id,
                renderable,
            }),
            forall|k2: u64|
                k2 != asset_id && has_key(old(self).spec_videos(), k2) ==> #[trigger] value_of(
                    final (self).spec_videos(),
                    k2,
                ) == value_of(old(self).spec_videos(), k2),
            final (self).spec_registry() == old(self).spec_registry(),
            final (self).spec_bridge() == old(self).spec_bridge(),
            final (self).spec_policy() == old(self).spec_policy(),
    {
        let video = match self.video_elements.get(asset_id) {
            Some(v) => *v,
            None => {
                return ;
            },
        };
        self.video_elements.upsert(
            asset_id,
            VideoElement { target_image_id: video.target_image_id, renderable },
        );
    }

    /// Returns the resource's text-cue sub-track, creating it on first use
    /// from the host-provided `fresh` handle: the one lazily created
    /// secondary host object an entry may own. Without a registered entry,
    /// returns nothing.
    pub fn cue_track(&mut self, asset_id: u64, fresh: ElementHandle) -> (r: Option<ElementHandle>)
        requires
            old(self).wf(),
        ensures
            final (self).wf(),
            !old(self).spec_registered(asset_id) ==> final (self).spec_registry()@ == old(
                self,
            ).spec_registry()@ && r is None,
            old(self).spec_registered(asset_id) ==> {
                &&& r == Some(
                    match old(self).spec_registry().spec_entry(asset_id).spec_cue_track() {
                        Some(t) => t,
                        None => fresh,
                    },
                )
                &&& final (self).spec_registry().spec_entry(asset_id).spec_cue_track() == r
                &&& final (self).spec_listeners(asset_id) == old(self).spec_listeners(asset_id)
                &&& final (self).spec_registry().spec_entry(asset_id).spec_element() == old(
                    self,
                ).spec_registry().spec_entry(asset_id).spec_element()
            },
            forall|k2: u64| #[trigger]
                has_key(final (self).spec_registry()@, k2) == has_key(
                    old(self).spec_registry()@,
                    k2,
                ),
            forall|k2: u64|
                k2 != asset_id && has_key(old(self).spec_registry()@, k2) ==> #[trigger] value_of(
                    final (self).spec_registry()@,
                    k2,
                ) == value_of(old(self).spec_registry()@, k2),
            final (self).spec_videos() == old(self).spec_videos(),
            final (self).spec_bridge() == old(self).spec_bridge(),
            final (self).spec_policy() == old(self).spec_policy(),
    {
        let r = self.registry.cue_track(asset_id, fresh);
        proof {
            assert forall|id: u64| #[trigger]
                has_key(self.spec_registry()@, id) implies entry_listeners_wf(
                self.spec_registry().spec_listeners(id),
            ) by {
                assert(has_key(old(self).spec_registry()@, id));
                if id == asset_id && old(self).spec_registered(asset_id) {
                    assert(self.spec_registry().spec_listeners(id) == old(
                        self,
                    ).spec_registry().spec_listeners(id));
                } else {
                    assert(self.spec_registry().spec_listeners(id) == old(
                        self,
                    ).spec_registry().spec_listeners(id));
                }
            }
        }
        r
    }

    /// The error handler: the host reported a playback failure for
    /// `asset_id`. Under the recoverable policy the resource is left in place
    /// — playback may recover, and its error state stays inspectable on the
    /// host handle. Under the terminal policy the resource is evicted as if
    /// removed, and the evicted entry is returned.
    pub fn on_error(&mut self, asset_id: u64) -> (evicted: Option<RegisteredElement>)
        requires
            old(self).wf(),
        ensures
            final (self).wf(),
            old(self).spec_policy() == ErrorPolicy::Recoverable ==> {
                &&& evicted is None
                &&& final (self).spec_registry() == old(self).spec_registry()
                &&& final (self).spec_videos() == old(self).spec_videos()
                &&& final (self).spec_bridge() == old(self).spec_bridge()
            },
            old(self).spec_policy() == ErrorPolicy::Terminal ==> {
                &&& !final (self).spec_registered(asset_id)
                &&& !has_key(final (self).spec_videos(), asset_id)
                &&& final (self).spec_registry()@ == remove_key(
                    old(self).spec_registry()@,
                    asset_id,
                )
                &&& final (self).spec_videos() == remove_key(old(self).spec_videos(), asset_id)
                &&& final (self).spec_bridge() == old(self).spec_bridge()
                &&& evicted == if old(self).spec_registered(asset_id) {
                    Some(old(self).spec_registry().spec_entry(asset_id))
                } else {
                    None::<RegisteredElement>
                }
            },
            final (self).spec_policy() == old(self).spec_policy(),
    {
        match self.policy {
            ErrorPolicy::Recoverable => None,
            ErrorPolicy::Terminal => self.remove_resource(asset_id),
        }
    }
}

/// Law (listener attach-before-expose): in every reachable context state, a
/// registered resource carries all of its system listeners. A creation
/// notification exists only for a resource that finished `create_resource`,
/// so a consumer holding one can always immediately query complete listener
/// state: metadata, can-play, resize, playing, ended and error are attached.
pub proof fn lemma_attach_before_expose(ctx: WebVideoContext, asset_id: u64)
    requires
        ctx.wf(),
        ctx.spec_registered(asset_id),
    ensures
        system_listeners_attached(ctx.spec_listeners(asset_id)),
{
    assert(entry_listeners_wf(ctx.spec_listeners(asset_id)));
    lemma_internal_listeners_attached(ctx.spec_listeners(asset_id));
}

/// Law (dimension round-trip): a resize notification reporting dimensions
/// W x H leaves the resource's destination image equal, whole, to a fresh
/// allocation of exactly W x H; a second notification with new dimensions
/// replaces it again, with no state left over from the earlier size.
pub proof fn lemma_dimension_round_trip(
    images: Seq<(u64, Image)>,
    videos: Seq<(u64, VideoElement)>,
    reg: Seq<(u64, RegisteredElement)>,
    asset_id: u64,
    w1: u32,
    h1: u32,
    w2: u32,
    h2: u32,
)
    requires
        unique_keys(images),
        has_key(videos, asset_id),
        has_key(reg, asset_id),
        w1 > 0,
        h1 > 0,
        w2 > 0,
        h2 > 0,
    ensures
        ({
            let target = value_of(videos, asset_id).target_image_id;
            let once = resized_images(images, videos, reg, asset_id, w1, h1);
            let twice = resized_images(once, videos, reg, asset_id, w2, h2);
            &&& has_key(once, target)
            &&& value_of(once, target) == spec_video_target_image(w1, h1)
            &&& unique_keys(once)
            &&& has_key(twice, target)
            &&& value_of(twice, target) == spec_video_target_image(w2, h2)
        }),
{
    let target = value_of(videos, asset_id).target_image_id;
    let once = resized_images(images, videos, reg, asset_id, w1, h1);
    crate::store::lemma_remove_key(images, target, target);
    crate::store::lemma_push_preserves(
        remove_key(images, target),
        target,
        spec_video_target_image(w1, h1),
        target,
    );
    crate::store::lemma_remove_key(once, target, target);
    crate::store::lemma_push_preserves(
        remove_key(once, target),
        target,
        spec_video_target_image(w2, h2),
        target,
    );
}

/// Law (cancellation cleanliness): every notification the drain delivers
/// concerns a resource that is registered at drain time. A message already in
/// flight for a removed id finds no matching entry and is discarded — and the
/// drain itself touches no listener and no image, so a discarded message
/// triggers no further listener attachment or texture mutation.
pub proof fn lemma_cancellation_clean(
    msgs: Seq<PendingCallbackMessage>,
    reg: Seq<(u64, RegisteredElement)>,
)
    ensures
        forall|i: int|
            0 <= i < dispatched_events(msgs, reg).len() ==> has_key(
                reg,
                (#[trigger] dispatched_events(msgs, reg)[i]).asset_id,
            ),
    decreases msgs.len(),
{
    if msgs.len() == 0 {
    } else {
        lemma_cancellation_clean(msgs.drop_last(), reg);
        let d = dispatched_events(msgs, reg);
        let rest = dispatched_events(msgs.drop_last(), reg);
        let m = msgs.last();
        assert forall|i: int| 0 <= i < d.len() implies has_key(
            reg,
            (#[trigger] d[i]).asset_id,
        ) by {
            if has_key(reg, m.asset_id) {
                if i < rest.len() {
                    assert(d[i] == rest[i]);
                    assert(has_key(reg, rest[i].asset_id));
                } else {
                    assert(d[i].asset_id == m.asset_id);
                }
            } else {
                assert(d == rest);
                assert(has_key(reg, rest[i].asset_id));
            }
        }
    }
}

/// Builds the bridge's own subscription handle for kind `t`.
fn internal_handle(t: EventType) -> (r: ListenerHandle)
    ensures
        r == internal_listener(t),
{
    ListenerHandle { event_type: t, target: None, internal: true }
}

/// The six system subscriptions, laid out by `internal_listeners`, include
/// one for each managed kind — so an entry whose listeners start with them
/// has every system listener attached.
proof fn lemma_internal_listeners_attached(ls: Seq<ListenerHandle>)
    requires
        ls.len() >= 6,
        ls.subrange(0, 6) == internal_listeners(),
    ensures
        system_listeners_attached(ls),
{
    assert(ls[0] == ls.subrange(0, 6)[0]);
    assert(ls[1] == ls.subrange(0, 6)[1]);
    assert(ls[2] == ls.subrange(0, 6)[2]);
    assert(ls[3] == ls.subrange(0, 6)[3]);
    assert(ls[4] == ls.subrange(0, 6)[4]);
    assert(ls[5] == ls.subrange(0, 6)[5]);
    assert(ls[0] == internal_listener(EventType::LoadedMetadata));
    assert(ls[1] == internal_listener(EventType::CanPlay));
    assert(ls[2] == internal_listener(EventType::Resize));
    assert(ls[3] == internal_listener(EventType::Playing));
    assert(ls[4] == internal_listener(EventType::Ended));
    assert(ls[5] == internal_listener(EventType::Error));
}

} // verus!
