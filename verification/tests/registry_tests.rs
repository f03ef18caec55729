use web_video::event::EventType;
use web_video::lifecycle::{ErrorPolicy, WebVideoContext};
use web_video::registry::ElementHandle;

#[test]
fn insert_then_lookup_finds_entry() {
    let mut ctx = WebVideoContext::new(ErrorPolicy::Recoverable);
    ctx.create_resource(1, 10, ElementHandle { raw: 500 });
    assert_eq!(ctx.registry().element(1), Some(ElementHandle { raw: 500 }));
    assert!(ctx.registry().contains(1));
    assert!(!ctx.registry().contains(2));
}

#[test]
fn lookup_miss_is_none_not_error() {
    let ctx = WebVideoContext::new(ErrorPolicy::Recoverable);
    assert_eq!(ctx.registry().element(42), None);
    assert_eq!(ctx.video_element(42), None);
}

#[test]
fn remove_returns_evicted_entry_with_listeners() {
    let mut ctx = WebVideoContext::new(ErrorPolicy::Recoverable);
    ctx.create_resource(3, 30, ElementHandle { raw: 7 });
    let evicted = ctx.remove_resource(3);
    let entry = evicted.expect("entry should have been registered");
    assert_eq!(entry.element(), ElementHandle { raw: 7 });
    assert_eq!(entry.listener_count(), 6);
    assert_eq!(ctx.registry().element(3), None);
    assert_eq!(ctx.video_element(3), None);
}

#[test]
fn remove_missing_id_returns_none() {
    let mut ctx = WebVideoContext::new(ErrorPolicy::Recoverable);
    assert!(ctx.remove_resource(9).is_none());
}

#[test]
fn insert_after_remove_succeeds_cleanly() {
    let mut ctx = WebVideoContext::new(ErrorPolicy::Recoverable);
    ctx.create_resource(5, 50, ElementHandle { raw: 1 });
    ctx.remove_resource(5);
    // The id is free again: a fresh resource registers under it cleanly.
    ctx.create_resource(5, 51, ElementHandle { raw: 2 });
    assert_eq!(ctx.registry().element(5), Some(ElementHandle { raw: 2 }));
    let video = ctx.video_element(5).expect("fresh asset should exist");
    assert_eq!(video.target_image_id(), 51);
    assert!(!video.is_renderable());
}

#[test]
fn at_most_one_entry_per_id() {
    let mut ctx = WebVideoContext::new(ErrorPolicy::Recoverable);
    ctx.create_resource(8, 80, ElementHandle { raw: 11 });
    ctx.create_resource(9, 90, ElementHandle { raw: 12 });
    // Removing id 8 once leaves nothing under it: there was exactly one entry.
    assert!(ctx.remove_resource(8).is_some());
    assert!(ctx.remove_resource(8).is_none());
    assert_eq!(ctx.registry().element(9), Some(ElementHandle { raw: 12 }));
}

#[test]
fn system_listeners_attached_on_creation() {
    let mut ctx = WebVideoContext::new(ErrorPolicy::Recoverable);
    let created = ctx.create_resource(4, 40, ElementHandle { raw: 77 });
    assert_eq!(created.video_element_id(), 4);
    // A probe consumer reacting to the creation notification immediately
    // finds complete listener state: all six system kinds, broadcast,
    // attached in order.
    let entry = ctx.registry().get(4).expect("entry must exist");
    let expected = [
        EventType::LoadedMetadata,
        EventType::CanPlay,
        EventType::Resize,
        EventType::Playing,
        EventType::Ended,
        EventType::Error,
    ];
    assert_eq!(entry.listener_count(), expected.len());
    for (i, kind) in expected.iter().enumerate() {
        let l = entry.listener_at(i);
        assert_eq!(l.event_type, *kind);
        assert_eq!(l.target, None);
        assert!(l.internal);
    }
}

#[test]
fn user_listeners_append_after_system_listeners() {
    let mut ctx = WebVideoContext::new(ErrorPolicy::Recoverable);
    ctx.create_resource(6, 60, ElementHandle { raw: 5 });
    ctx.add_video_event_listener(6, EventType::Ended, 900);
    ctx.add_video_event_listener(6, EventType::Ended, 901);
    let entry = ctx.registry().get(6).expect("entry must exist");
    assert_eq!(entry.listener_count(), 8);
    let l6 = entry.listener_at(6);
    assert_eq!(l6.event_type, EventType::Ended);
    assert_eq!(l6.target, Some(900));
    assert!(!l6.internal);
    let l7 = entry.listener_at(7);
    assert_eq!(l7.target, Some(901));
}

#[test]
fn user_listener_on_missing_resource_is_skipped() {
    let mut ctx = WebVideoContext::new(ErrorPolicy::Recoverable);
    ctx.add_video_event_listener(12, EventType::Playing, 3);
    assert!(ctx.registry().get(12).is_none());
}

#[test]
fn cue_track_created_lazily_once() {
    let mut ctx = WebVideoContext::new(ErrorPolicy::Recoverable);
    assert_eq!(ctx.cue_track(2, ElementHandle { raw: 100 }), None);
    ctx.create_resource(2, 20, ElementHandle { raw: 1 });
    let first = ctx.cue_track(2, ElementHandle { raw: 100 });
    assert_eq!(first, Some(ElementHandle { raw: 100 }));
    // A second request keeps the first track rather than the new candidate.
    let second = ctx.cue_track(2, ElementHandle { raw: 200 });
    assert_eq!(second, Some(ElementHandle { raw: 100 }));
}
