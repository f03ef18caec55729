use web_video::event::EventType;
use web_video::lifecycle::{ErrorPolicy, WebVideoContext};
use web_video::registry::ElementHandle;

#[test]
fn event_names_match_host_names() {
    assert_eq!(EventType::LoadedMetadata.event_name(), "loadedmetadata");
    assert_eq!(EventType::CanPlay.event_name(), "canplay");
    assert_eq!(EventType::Resize.event_name(), "resize");
    assert_eq!(EventType::Playing.event_name(), "playing");
    assert_eq!(EventType::Ended.event_name(), "ended");
    assert_eq!(EventType::Error.event_name(), "error");
    assert_eq!(EventType::CueChange.event_name(), "cuechange");
    assert_eq!(EventType::TimeUpdate.event_name(), "timeupdate");
}

#[test]
fn drain_of_empty_channel_is_normal() {
    let mut ctx = WebVideoContext::new(ErrorPolicy::Recoverable);
    let events = ctx.drain_and_dispatch(EventType::Playing);
    assert!(events.is_empty());
}

#[test]
fn fired_callbacks_are_drained_in_fifo_order() {
    let mut ctx = WebVideoContext::new(ErrorPolicy::Recoverable);
    ctx.create_resource(1, 10, ElementHandle { raw: 1 });
    ctx.create_resource(2, 20, ElementHandle { raw: 2 });
    ctx.callback_fired(1, EventType::Resize, None);
    ctx.callback_fired(2, EventType::Resize, Some(40));
    ctx.callback_fired(1, EventType::Resize, None);
    let events = ctx.drain_and_dispatch(EventType::Resize);
    assert_eq!(events.len(), 3);
    assert_eq!(events[0].asset_id(), 1);
    assert_eq!(events[0].target, None);
    assert_eq!(events[1].asset_id(), 2);
    assert_eq!(events[1].target, Some(40));
    assert_eq!(events[2].asset_id(), 1);
    for e in &events {
        assert_eq!(e.event_type, EventType::Resize);
    }
    // The drain consumed everything.
    assert!(ctx.drain_and_dispatch(EventType::Resize).is_empty());
}

#[test]
fn kinds_use_separate_channels() {
    let mut ctx = WebVideoContext::new(ErrorPolicy::Recoverable);
    ctx.create_resource(1, 10, ElementHandle { raw: 1 });
    ctx.callback_fired(1, EventType::Playing, None);
    ctx.callback_fired(1, EventType::Ended, None);
    // Draining one kind leaves the other kind's channel untouched.
    let playing = ctx.drain_and_dispatch(EventType::Playing);
    assert_eq!(playing.len(), 1);
    assert_eq!(playing[0].event_type, EventType::Playing);
    let ended = ctx.drain_and_dispatch(EventType::Ended);
    assert_eq!(ended.len(), 1);
    assert_eq!(ended[0].event_type, EventType::Ended);
}

#[test]
fn host_fire_enqueues_one_message_per_matching_listener() {
    let mut ctx = WebVideoContext::new(ErrorPolicy::Recoverable);
    ctx.create_resource(1, 10, ElementHandle { raw: 1 });
    ctx.add_video_event_listener(1, EventType::Playing, 70);
    // The playing event reaches the internal listener and the user listener.
    ctx.host_fire(1, EventType::Playing);
    let events = ctx.drain_and_dispatch(EventType::Playing);
    assert_eq!(events.len(), 2);
    assert_eq!(events[0].target, None);
    assert_eq!(events[1].target, Some(70));
    // A kind nobody fired stays empty.
    assert!(ctx.drain_and_dispatch(EventType::Ended).is_empty());
}

#[test]
fn host_fire_after_remove_enqueues_nothing() {
    let mut ctx = WebVideoContext::new(ErrorPolicy::Recoverable);
    ctx.create_resource(1, 10, ElementHandle { raw: 1 });
    ctx.remove_resource(1);
    // All subscriptions went with the entry: the host event finds no callback.
    ctx.host_fire(1, EventType::Playing);
    assert!(ctx.drain_and_dispatch(EventType::Playing).is_empty());
}

#[test]
fn in_flight_messages_for_removed_id_are_discarded() {
    let mut ctx = WebVideoContext::new(ErrorPolicy::Recoverable);
    ctx.create_resource(1, 10, ElementHandle { raw: 1 });
    ctx.create_resource(2, 20, ElementHandle { raw: 2 });
    ctx.callback_fired(1, EventType::Error, None);
    ctx.callback_fired(2, EventType::Error, None);
    // Id 1 is removed while its message is still in flight.
    ctx.remove_resource(1);
    let events = ctx.drain_and_dispatch(EventType::Error);
    assert_eq!(events.len(), 1);
    assert_eq!(events[0].asset_id(), 2);
    // The discarded message changed nothing: id 1 stays gone, id 2 intact.
    assert!(ctx.registry().element(1).is_none());
    assert!(ctx.registry().element(2).is_some());
}
