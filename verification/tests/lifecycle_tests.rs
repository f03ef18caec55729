use web_video::event::EventType;
use web_video::image::{Extent3d, GpuImage, Image, TextureFormat};
use web_video::lifecycle::{ErrorPolicy, VideoElement, WebVideoContext};
use web_video::registry::ElementHandle;
use web_video::store::KeyedStore;
use web_video::{WebVideo, WebVideoError};

#[test]
fn resize_allocates_destination_to_exact_dimensions() {
    let mut ctx = WebVideoContext::new(ErrorPolicy::Recoverable);
    ctx.create_resource(1, 10, ElementHandle { raw: 1 });
    let mut images: KeyedStore<Image> = KeyedStore::new();
    ctx.on_loadedmetadata(1, 640, 360, &mut images);
    let image = images.get(10).expect("destination must be allocated");
    assert_eq!(
        image.size,
        Extent3d { width: 640, height: 360, depth_or_array_layers: 1 }
    );
    assert_eq!(image.format, TextureFormat::Rgba8Unorm);
    assert!(image.render_attachment);
}

#[test]
fn repeated_resize_leaves_no_stale_state() {
    let mut ctx = WebVideoContext::new(ErrorPolicy::Recoverable);
    ctx.create_resource(1, 10, ElementHandle { raw: 1 });
    let mut images: KeyedStore<Image> = KeyedStore::new();
    ctx.on_resize(1, 640, 360, &mut images);
    ctx.on_resize(1, 1280, 720, &mut images);
    assert_eq!(images.len(), 1);
    let image = images.get(10).expect("destination must exist");
    assert_eq!(
        *image,
        Image {
            size: Extent3d { width: 1280, height: 720, depth_or_array_layers: 1 },
            format: TextureFormat::Rgba8Unorm,
            render_attachment: true,
        }
    );
}

#[test]
fn zero_dimension_resize_is_skipped() {
    let mut ctx = WebVideoContext::new(ErrorPolicy::Recoverable);
    ctx.create_resource(1, 10, ElementHandle { raw: 1 });
    let mut images: KeyedStore<Image> = KeyedStore::new();
    ctx.on_canplay(1, 0, 360, &mut images);
    ctx.on_canplay(1, 640, 0, &mut images);
    assert!(images.get(10).is_none());
}

#[test]
fn resize_for_unknown_resource_is_skipped() {
    let ctx = WebVideoContext::new(ErrorPolicy::Recoverable);
    let mut images: KeyedStore<Image> = KeyedStore::new();
    ctx.on_resize(5, 640, 360, &mut images);
    assert_eq!(images.len(), 0);
}

#[test]
fn playing_sets_renderable_and_ended_clears_it() {
    let mut ctx = WebVideoContext::new(ErrorPolicy::Recoverable);
    ctx.create_resource(1, 10, ElementHandle { raw: 1 });
    assert!(!ctx.video_element(1).unwrap().is_renderable());
    ctx.on_playing(1);
    assert!(ctx.video_element(1).unwrap().is_renderable());
    ctx.on_ended(1);
    assert!(!ctx.video_element(1).unwrap().is_renderable());
    // The target stays what it was through both flips.
    assert_eq!(ctx.video_element(1).unwrap().target_image_id(), 10);
}

#[test]
fn error_is_recoverable_under_default_policy() {
    let mut ctx = WebVideoContext::new(ErrorPolicy::Recoverable);
    ctx.create_resource(1, 10, ElementHandle { raw: 1 });
    ctx.on_playing(1);
    let evicted = ctx.on_error(1);
    assert!(evicted.is_none());
    // The resource stays in place, renderable flag untouched.
    assert!(ctx.registry().contains(1));
    assert!(ctx.video_element(1).unwrap().is_renderable());
}

#[test]
fn error_evicts_under_terminal_policy() {
    let mut ctx = WebVideoContext::new(ErrorPolicy::Terminal);
    ctx.create_resource(1, 10, ElementHandle { raw: 9 });
    let evicted = ctx.on_error(1);
    let entry = evicted.expect("terminal policy must evict");
    assert_eq!(entry.element(), ElementHandle { raw: 9 });
    assert!(!ctx.registry().contains(1));
    assert!(ctx.video_element(1).is_none());
}

#[test]
fn video_element_wrapper_accessors() {
    let video = VideoElement::new(33);
    assert_eq!(video.target_image_id(), 33);
    assert!(!video.is_renderable());
    let web_video = WebVideo::new(7);
    assert_eq!(web_video.asset_id(), 7);
    assert_eq!(web_video.as_asset_id(), 7);
}

#[test]
fn error_wrapper_keeps_message() {
    let err = WebVideoError::new(String::from("play() was rejected"));
    assert_eq!(err.message().as_str(), "play() was rejected");
}

#[test]
fn concrete_scenario_end_to_end() {
    // Create resource id 7 targeting image id 100.
    let mut ctx = WebVideoContext::new(ErrorPolicy::Recoverable);
    let handle = ElementHandle { raw: 7000 };
    let created = ctx.create_resource(7, 100, handle);
    assert_eq!(created.video_element_id(), 7);

    // The host fires metadata-loaded; the drain delivers it; the handler
    // resizes texture 100 to the reported 640 x 360.
    ctx.host_fire(7, EventType::LoadedMetadata);
    let events = ctx.drain_and_dispatch(EventType::LoadedMetadata);
    assert_eq!(events.len(), 1);
    assert_eq!(events[0].asset_id(), 7);
    let mut images: KeyedStore<Image> = KeyedStore::new();
    ctx.on_loadedmetadata(events[0].asset_id(), 640, 360, &mut images);
    assert_eq!(
        images.get(100).unwrap().size,
        Extent3d { width: 640, height: 360, depth_or_array_layers: 1 }
    );

    // The host fires playing; renderable becomes true.
    ctx.host_fire(7, EventType::Playing);
    let events = ctx.drain_and_dispatch(EventType::Playing);
    assert_eq!(events.len(), 1);
    ctx.on_playing(events[0].asset_id());
    assert!(ctx.video_element(7).unwrap().is_renderable());

    // One render-prepare phase with the destination realized records exactly
    // one copy: source = resource 7's handle, destination = texture 100.
    let mut gpu_images: KeyedStore<GpuImage> = KeyedStore::new();
    gpu_images.insert_new(
        100,
        GpuImage {
            texture: 100,
            size: Extent3d { width: 640, height: 360, depth_or_array_layers: 1 },
        },
    );
    let mut queue = web_video::render::RenderQueue::new();
    web_video::render::render_phase(&ctx, &gpu_images, &mut queue);
    assert_eq!(queue.op_count(), 1);
    let op = queue.op_at(0);
    assert_eq!(op.source.source, handle);
    assert_eq!(op.dest.texture, 100);

    // The host fires error; under the recoverable policy it is delivered,
    // and the renderable flag is unchanged.
    ctx.host_fire(7, EventType::Error);
    let events = ctx.drain_and_dispatch(EventType::Error);
    assert_eq!(events.len(), 1);
    let evicted = ctx.on_error(events[0].asset_id());
    assert!(evicted.is_none());
    assert!(ctx.video_element(7).unwrap().is_renderable());
}

#[test]
fn concrete_scenario_with_terminal_errors() {
    let mut ctx = WebVideoContext::new(ErrorPolicy::Terminal);
    let handle = ElementHandle { raw: 7000 };
    ctx.create_resource(7, 100, handle);
    ctx.host_fire(7, EventType::Playing);
    let events = ctx.drain_and_dispatch(EventType::Playing);
    ctx.on_playing(events[0].asset_id());
    assert!(ctx.video_element(7).unwrap().is_renderable());

    // Under the terminal policy an error notification evicts the resource.
    ctx.host_fire(7, EventType::Error);
    let events = ctx.drain_and_dispatch(EventType::Error);
    assert_eq!(events.len(), 1);
    let evicted = ctx.on_error(events[0].asset_id());
    assert_eq!(evicted.expect("must evict").element(), handle);
    assert!(!ctx.registry().contains(7));
    assert!(ctx.video_element(7).is_none());
}
