//! The closed set of notification kinds a host media resource can fire, each
//! tied to exactly one host event name, together with the two notification
//! payloads: the message a firing host callback enqueues, and the
//! tick-synchronous event the per-tick drain delivers to consumers.

use vstd::prelude::*;

verus! {

/// A notification kind fired by the host resource. Exactly one host event
/// name maps to each kind; see [`EventType::event_name`].
#[derive(Clone, Copy, PartialEq, Eq, Structural, Debug, Hash)]
pub enum EventType {
    /// The host knows the stream's metadata, dimensions included.
    LoadedMetadata,
    /// Enough data is buffered for playback to begin.
    CanPlay,
    /// The stream's dimensions changed.
    Resize,
    /// Playback started: at least one decoded frame is guaranteed available.
    Playing,
    /// The stream reached its end.
    Ended,
    /// The host reports a playback failure.
    Error,
    /// The set of active text cues changed.
    CueChange,
    /// The playback position advanced.
    TimeUpdate,
}

impl EventType {
    /// The host event name this kind listens for.
    pub open spec fn spec_event_name(self) -> Seq<char> {
        match self {
            EventType::LoadedMetadata => "loadedmetadata"@,
            EventType::CanPlay => "canplay"@,
            EventType::Resize => "resize"@,
            EventType::Playing => "playing"@,
            EventType::Ended => "ended"@,
            EventType::Error => "error"@,
            EventType::CueChange => "cuechange"@,
            EventType::TimeUpdate => "timeupdate"@,
        }
    }

    /// Returns the host event name this kind listens for.
    pub fn event_name(self) -> (r: &'static str)
        ensures
            r@ == self.spec_event_name(),
    {
        match self {
            EventType::LoadedMetadata => "loadedmetadata",
            EventType::CanPlay => "canplay",
            EventType::Resize => "resize",
            EventType::Playing => "playing",
            EventType::Ended => "ended",
            EventType::Error => "error",
            EventType::CueChange => "cuechange",
            EventType::TimeUpdate => "timeupdate",
        }
    }
}

/// The payload a firing host callback enqueues on its kind's channel. It
/// carries everything needed to rebuild the consumer-visible notification at
/// drain time, so the callback itself never touches registry state.
#[derive(Clone, Copy, Debug)]
pub struct PendingCallbackMessage {
    /// The notification kind whose host event fired.
    pub event_type: EventType,
    /// The video resource the notification concerns.
    pub asset_id: u64,
    /// The consumer the notification is addressed to; `None` broadcasts it
    /// to all interested consumers.
    pub target: Option<u64>,
}

/// A tick-synchronous notification, delivered by the per-tick drain to the
/// named target consumer if one is present, else broadcast.
#[derive(Clone, Copy, Debug)]
pub struct ListenerEvent {
    /// The notification kind.
    pub event_type: EventType,
    /// The video resource the notification concerns.
    pub asset_id: u64,
    /// The consumer the notification is addressed to; `None` broadcasts it.
    pub target: Option<u64>,
}

impl ListenerEvent {
    /// Builds a notification for the given resource and optional target.
    pub fn new(event_type: EventType, asset_id: u64, target: Option<u64>) -> (r: ListenerEvent)
        ensures
            r == (ListenerEvent { event_type, asset_id, target }),
    {
        ListenerEvent { event_type, asset_id, target }
    }

    /// Returns the id of the video resource the notification concerns.
    pub fn asset_id(&self) -> (r: u64)
        ensures
            r == self.asset_id,
    {
        self.asset_id
    }
}

} // verus!
