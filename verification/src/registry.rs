//! The resource registry: a mapping from a stable video asset id to the
//! registered entry owning the host element handle and its attached listener
//! subscriptions. Confined to the single thread that owns the update tick;
//! host callbacks never touch it — they only enqueue on the event bridge.

use vstd::prelude::*;
use crate::event::EventType;
use crate::store::{has_key, value_of, KeyedStore};

verus! {

/// An opaque token standing for a host-owned playable media element. The
/// host platform owns the element itself; the bridge only stores and hands
/// back the token.
#[derive(Clone, Copy, PartialEq, Eq, Structural, Debug, Hash)]
pub struct ElementHandle {
    /// The host-side identity of the element.
    pub raw: u64,
}

/// An owned subscription: one host-side callback registered on the element's
/// native event source for one notification kind.
#[derive(Clone, Copy, PartialEq, Eq, Debug)]
pub struct ListenerHandle {
    /// The notification kind the callback listens for.
    pub event_type: EventType,
    /// The consumer its notifications are addressed to; `None` broadcasts.
    pub target: Option<u64>,
    /// Whether the bridge itself attached this subscription during resource
    /// creation, as opposed to a user-registered observer.
    pub internal: bool,
}

/// The subscription the bridge attaches for kind `t` during resource
/// creation: broadcast, marked internal.
pub open spec fn internal_listener(t: EventType) -> ListenerHandle {
    ListenerHandle { event_type: t, target: None, internal: true }
}

/// Whether the bridge's own subscription for kind `t` is attached.
pub open spec fn has_internal_listener(ls: Seq<ListenerHandle>, t: EventType) -> bool {
    exists|i: int| 0 <= i < ls.len() && (#[trigger] ls[i]) == internal_listener(t)
}

/// The subscriptions attached during resource creation, in attachment order:
/// one per lifecycle kind the bridge manages itself.
pub open spec fn internal_listeners() -> Seq<ListenerHandle> {
    seq![
        internal_listener(EventType::LoadedMetadata),
        internal_listener(EventType::CanPlay),
        internal_listener(EventType::Resize),
        internal_listener(EventType::Playing),
        internal_listener(EventType::Ended),
        internal_listener(EventType::Error),
    ]
}

/// Whether every system subscription — metadata, can-play, resize, playing,
/// ended, error — is attached.
pub open spec fn system_listeners_attached(ls: Seq<ListenerHandle>) -> bool {
    &&& has_internal_listener(ls, EventType::LoadedMetadata)
    &&& has_internal_listener(ls, EventType::CanPlay)
    &&& has_internal_listener(ls, EventType::Resize)
    &&& has_internal_listener(ls, EventType::Playing)
    &&& has_internal_listener(ls, EventType::Ended)
    &&& has_internal_listener(ls, EventType::Error)
}

/// A registered resource entry: the host element handle, the subscriptions
/// attached to it, and the lazily created text-cue sub-track. Dropping the
/// entry drops every subscription with it, which unregisters the host-side
/// callbacks.
#[derive(Debug)]
pub struct RegisteredElement {
    element: ElementHandle,
    listeners: Vec<ListenerHandle>,
    cue_track: Option<ElementHandle>,
}

impl RegisteredElement {
    /// The host element handle the entry owns.
    pub closed spec fn spec_element(&self) -> ElementHandle {
        self.element
    }

    /// The attached subscriptions, in attachment order.
    pub closed spec fn spec_listeners(&self) -> Seq<ListenerHandle> {
        self.listeners@
    }

    /// The text-cue sub-track, if it was created.
    pub closed spec fn spec_cue_track(&self) -> Option<ElementHandle> {
        self.cue_track
    }

    /// Wraps a host element handle in a fresh entry with no subscriptions.
    pub fn new(element: ElementHandle) -> (r: RegisteredElement)
        ensures
            r.spec_element() == element,
            r.spec_listeners() == Seq::<ListenerHandle>::empty(),
            r.spec_cue_track() is None,
    {
        RegisteredElement { element, listeners: Vec::new(), cue_track: None }
    }

    /// Returns the host element handle.
    pub fn element(&self) -> (r: ElementHandle)
        ensures
            r == self.spec_element(),
    {
        self.element
    }

    /// The number of attached subscriptions.
    pub fn listener_count(&self) -> (n: usize)
        ensures
            n == self.spec_listeners().len(),
    {
        self.listeners.len()
    }

    /// The subscription at attachment position `i`.
    pub fn listener_at(&self, i: usize) -> (l: ListenerHandle)
        requires
            i < self.spec_listeners().len(),
        ensures
            l == self.spec_listeners()[i as int],
    {
        self.listeners[i]
    }
}

/// Law (registry uniqueness): a well-formed registry holds at most one entry
/// per video asset id — any two positions holding the same id coincide. Since
/// `insert` demands a free id and `remove` frees it, this holds across every
/// sequence of insertions and removals.
pub proof fn lemma_registry_uniqueness(r: VideoElementRegistry, asset_id: u64, i: int, j: int)
    requires
        r.wf(),
        0 <= i < r@.len(),
        0 <= j < r@.len(),
        r@[i].0 == asset_id,
        r@[j].0 == asset_id,
    ensures
        i == j,
{
    crate::store::lemma_at_most_one_entry(r@, asset_id, i, j);
}

/// The registry owning all live resource entries, keyed by video asset id.
/// At most one entry exists per id at any time.
pub struct VideoElementRegistry {
    elements: KeyedStore<RegisteredElement>,
}

impl View for VideoElementRegistry {
    type V = Seq<(u64, RegisteredElement)>;

    closed spec fn view(&self) -> Seq<(u64, RegisteredElement)> {
        self.elements@
    }
}

impl VideoElementRegistry {
    /// Key uniqueness: at most one entry per video asset id.
    pub open spec fn wf(&self) -> bool {
        crate::store::unique_keys(self@)
    }

    /// Whether an entry is registered for `asset_id`.
    pub open spec fn spec_registered(&self, asset_id: u64) -> bool {
        has_key(self@, asset_id)
    }

    /// The entry registered for `asset_id`; meaningful only when registered.
    pub open spec fn spec_entry(&self, asset_id: u64) -> RegisteredElement {
        value_of(self@, asset_id)
    }

    /// The subscriptions attached for `asset_id`; meaningful only when
    /// registered.
    pub open spec fn spec_listeners(&self, asset_id: u64) -> Seq<ListenerHandle> {
        self.spec_entry(asset_id).spec_listeners()
    }

    /// Creates an empty registry.
    pub fn new() -> (r: VideoElementRegistry)
        ensures
            r@ == Seq::<(u64, RegisteredElement)>::empty(),
            r.wf(),
    {
        VideoElementRegistry { elements: KeyedStore::new() }
    }

    /// Looks up the host element handle for `asset_id`. Absence is a normal,
    /// frequently-hit outcome — callers treat "resource gone" as skip.
    pub fn element(&self, asset_id: u64) -> (r: Option<ElementHandle>)
        requires
            self.wf(),
        ensures
            match r {
                Some(h) => self.spec_registered(asset_id) && h == self.spec_entry(
                    asset_id,
                ).spec_element(),
                None => !self.spec_registered(asset_id),
            },
    {
        match self.elements.get(asset_id) {
            Some(entry) => Some(entry.element()),
            None => None,
        }
    }

    /// Looks up the registered entry for `asset_id`; absence is normal.
    pub fn get(&self, asset_id: u64) -> (r: Option<&RegisteredElement>)
        requires
            self.wf(),
        ensures
            match r {
                Some(e) => self.spec_registered(asset_id) && *e == self.spec_entry(asset_id),
                None => !self.spec_registered(asset_id),
            },
    {
        self.elements.get(asset_id)
    }

    /// Whether an entry is registered for `asset_id`.
    pub fn contains(&self, asset_id: u64) -> (r: bool)
        ensures
            r == self.spec_registered(asset_id),
    {
        self.elements.contains_key(asset_id)
    }

    /// Stores a fresh entry for `asset_id` with no subscriptions. Inserting
    /// an id that is already registered is a programming error, excluded here
    /// rather than handled at run time.
    pub(crate) fn insert(&mut self, asset_id: u64, element: ElementHandle)
        requires
            old(self).wf(),
            !old(self).spec_registered(asset_id),
        ensures
            final (self).wf(),
            final (self).spec_registered(asset_id),
            final (self).spec_entry(asset_id).spec_element() == element,
            final (self).spec_entry(asset_id).spec_listeners() == Seq::<ListenerHandle>::empty(),
            final (self).spec_entry(asset_id).spec_cue_track() is None,
            forall|k2: u64|
                k2 != asset_id ==> #[trigger] has_key(final (self)@, k2) == has_key(old(self)@, k2),
            forall|k2: u64|
                k2 != asset_id && has_key(old(self)@, k2) ==> #[trigger] value_of(final (self)@, k2)
                    == value_of(old(self)@, k2),
    {
        let entry = RegisteredElement::new(element);
        self.elements.insert_new(asset_id, entry);
    }

    /// Evicts and returns the entry for `asset_id`. The returned entry owns
    /// all its subscriptions, so dropping it detaches every host callback.
    pub(crate) fn remove(&mut self, asset_id: u64) -> (r: Option<RegisteredElement>)
        requires
            old(self).wf(),
        ensures
            final (self).wf(),
            !final (self).spec_registered(asset_id),
            final (self)@ == crate::store::remove_key(old(self)@, asset_id),
            r == if old(self).spec_registered(asset_id) {
                Some(old(self).spec_entry(asset_id))
            } else {
                None::<RegisteredElement>
            },
            forall|k2: u64|
                k2 != asset_id ==> #[trigger] has_key(final (self)@, k2) == has_key(old(self)@, k2),
            forall|k2: u64|
                k2 != asset_id && has_key(old(self)@, k2) ==> #[trigger] value_of(final (self)@, k2)
                    == value_of(old(self)@, k2),
    {
        self.elements.remove(asset_id)
    }

    /// Attaches one more subscription to `asset_id`'s entry, leaving earlier
    /// subscriptions in place: the collection only ever grows while the entry
    /// is registered. Without an entry, nothing happens.
    pub(crate) fn add_event_listener(&mut self, asset_id: u64, listener: ListenerHandle)
        requires
            old(self).wf(),
        ensures
            final (self).wf(),
            forall|k2: u64| #[trigger] has_key(final (self)@, k2) == has_key(old(self)@, k2),
            old(self).spec_registered(asset_id) ==> {
                &&& final (self).spec_entry(asset_id).spec_element() == old(self).spec_entry(
                    asset_id,
                ).spec_element()
                &&& final (self).spec_entry(asset_id).spec_cue_track() == old(self).spec_entry(
                    asset_id,
                ).spec_cue_track()
                &&& final (self).spec_listeners(asset_id) == old(self).spec_listeners(
                    asset_id,
                ).push(listener)
            },
            !old(self).spec_registered(asset_id) ==> final (self)@ == old(self)@,
            forall|k2: u64|
                k2 != asset_id && has_key(old(self)@, k2) ==> #[trigger] value_of(final (self)@, k2)
                    == value_of(old(self)@, k2),
    {
        match self.elements.remove(asset_id) {
            Some(mut entry) => {
                entry.listeners.push(listener);
                self.elements.insert_new(asset_id, entry);
            },
            None => {},
        }
    }

    /// Returns the entry's text-cue sub-track, creating it on first use from
    /// the host-provided handle. Without an entry, returns nothing.
    pub(crate) fn cue_track(&mut self, asset_id: u64, fresh: ElementHandle) -> (r: Option<
        ElementHandle,
    >)
        requires
            old(self).wf(),
        ensures
            final (self).wf(),
            forall|k2: u64| #[trigger] has_key(final (self)@, k2) == has_key(old(self)@, k2),
            !old(self).spec_registered(asset_id) ==> final (self)@ == old(self)@ && r is None,
            old(self).spec_registered(asset_id) ==> {
                &&& final (self).spec_entry(asset_id).spec_element() == old(self).spec_entry(
                    asset_id,
                ).spec_element()
                &&& final (self).spec_listeners(asset_id) == old(self).spec_listeners(asset_id)
                &&& r == Some(
                    match old(self).spec_entry(asset_id).spec_cue_track() {
                        Some(t) => t,
                        None => fresh,
                    },
                )
                &&& final (self).spec_entry(asset_id).spec_cue_track() == Some(
                    match old(self).spec_entry(asset_id).spec_cue_track() {
                        Some(t) => t,
                        None => fresh,
                    },
                )
            },
            forall|k2: u64|
                k2 != asset_id && has_key(old(self)@, k2) ==> #[trigger] value_of(final (self)@, k2)
                    == value_of(old(self)@, k2),
    {
        match self.elements.remove(asset_id) {
            Some(mut entry) => {
                let track = match entry.cue_track {
                    Some(t) => t,
                    None => {
                        entry.cue_track = Some(fresh);
                        fresh
                    },
                };
                self.elements.insert_new(asset_id, entry);
                Some(track)
            },
            None => None,
        }
    }
}

} // verus!
