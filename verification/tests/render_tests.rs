use web_video::event::EventType;
use web_video::image::{Extent3d, GpuImage};
use web_video::lifecycle::{ErrorPolicy, WebVideoContext};
use web_video::registry::ElementHandle;
use web_video::render::{
    extract_elements, render_phase, PredefinedColorSpace, PrepareAssetError, RenderElements,
    RenderQueue, RenderVideoElement, TextureAspect,
};
use web_video::store::KeyedStore;

fn gpu_store(image_id: u64, texture: u64, width: u32, height: u32) -> KeyedStore<GpuImage> {
    let mut gpu_images: KeyedStore<GpuImage> = KeyedStore::new();
    gpu_images.insert_new(
        image_id,
        GpuImage { texture, size: Extent3d { width, height, depth_or_array_layers: 1 } },
    );
    gpu_images
}

#[test]
fn no_copy_before_renderable() {
    let mut ctx = WebVideoContext::new(ErrorPolicy::Recoverable);
    ctx.create_resource(1, 10, ElementHandle { raw: 1 });
    let gpu_images = gpu_store(10, 900, 640, 360);
    let mut queue = RenderQueue::new();
    // The resource never became renderable: zero copy operations.
    render_phase(&ctx, &gpu_images, &mut queue);
    assert_eq!(queue.op_count(), 0);
}

#[test]
fn exactly_one_copy_per_ready_resource_per_phase() {
    let mut ctx = WebVideoContext::new(ErrorPolicy::Recoverable);
    ctx.create_resource(1, 10, ElementHandle { raw: 1 });
    ctx.create_resource(2, 20, ElementHandle { raw: 2 });
    ctx.on_playing(1);
    ctx.on_playing(2);
    let mut gpu_images = gpu_store(10, 900, 640, 360);
    gpu_images.insert_new(
        20,
        GpuImage { texture: 901, size: Extent3d { width: 320, height: 240, depth_or_array_layers: 1 } },
    );
    let mut queue = RenderQueue::new();
    render_phase(&ctx, &gpu_images, &mut queue);
    assert_eq!(queue.op_count(), 2);
    // A second phase copies again: one attempt per ready resource per phase.
    render_phase(&ctx, &gpu_images, &mut queue);
    assert_eq!(queue.op_count(), 4);
}

#[test]
fn unrealized_destination_is_skipped_and_retried() {
    let mut ctx = WebVideoContext::new(ErrorPolicy::Recoverable);
    ctx.create_resource(1, 10, ElementHandle { raw: 1 });
    ctx.on_playing(1);
    let mut queue = RenderQueue::new();
    let empty_gpu: KeyedStore<GpuImage> = KeyedStore::new();
    // Destination not realized yet: skipped, not an error.
    render_phase(&ctx, &empty_gpu, &mut queue);
    assert_eq!(queue.op_count(), 0);
    // Once realized, the next phase copies.
    let gpu_images = gpu_store(10, 900, 640, 360);
    render_phase(&ctx, &gpu_images, &mut queue);
    assert_eq!(queue.op_count(), 1);
}

#[test]
fn copy_uses_the_platform_contract_parameters() {
    let mut ctx = WebVideoContext::new(ErrorPolicy::Recoverable);
    ctx.create_resource(1, 10, ElementHandle { raw: 55 });
    ctx.on_playing(1);
    let gpu_images = gpu_store(10, 900, 640, 360);
    let mut queue = RenderQueue::new();
    render_phase(&ctx, &gpu_images, &mut queue);
    assert_eq!(queue.op_count(), 1);
    let op = queue.op_at(0);
    assert_eq!(op.source.source, ElementHandle { raw: 55 });
    assert_eq!(op.source.origin.x, 0);
    assert_eq!(op.source.origin.y, 0);
    assert!(!op.source.flip_y);
    assert_eq!(op.dest.texture, 900);
    assert_eq!(op.dest.mip_level, 0);
    assert_eq!((op.dest.origin.x, op.dest.origin.y, op.dest.origin.z), (0, 0, 0));
    assert_eq!(op.dest.aspect, TextureAspect::All);
    assert_eq!(op.dest.color_space, PredefinedColorSpace::Srgb);
    assert!(op.dest.premultiplied_alpha);
    assert_eq!(op.size, Extent3d { width: 640, height: 360, depth_or_array_layers: 1 });
}

#[test]
fn ended_resource_stops_being_copied() {
    let mut ctx = WebVideoContext::new(ErrorPolicy::Recoverable);
    ctx.create_resource(1, 10, ElementHandle { raw: 1 });
    ctx.on_playing(1);
    ctx.on_ended(1);
    let gpu_images = gpu_store(10, 900, 640, 360);
    let mut queue = RenderQueue::new();
    render_phase(&ctx, &gpu_images, &mut queue);
    assert_eq!(queue.op_count(), 0);
}

#[test]
fn extraction_records_only_renderable_registered_resources() {
    let mut ctx = WebVideoContext::new(ErrorPolicy::Recoverable);
    ctx.create_resource(1, 10, ElementHandle { raw: 1 });
    ctx.create_resource(2, 20, ElementHandle { raw: 2 });
    ctx.on_playing(2);
    let mut render_elements: RenderElements = KeyedStore::new();
    extract_elements(&ctx, &mut render_elements);
    assert!(render_elements.get(1).is_none());
    assert_eq!(render_elements.get(2), Some(&ElementHandle { raw: 2 }));
}

#[test]
fn prepare_asset_copies_once_and_consumes_the_extraction() {
    let mut ctx = WebVideoContext::new(ErrorPolicy::Recoverable);
    ctx.create_resource(1, 10, ElementHandle { raw: 1 });
    ctx.on_playing(1);
    let video = ctx.video_element(1).unwrap();
    let gpu_images = gpu_store(10, 900, 640, 360);
    let mut render_elements: RenderElements = KeyedStore::new();
    extract_elements(&ctx, &mut render_elements);
    let mut queue = RenderQueue::new();
    let r = RenderVideoElement::prepare_asset(video, 1, &mut queue, &gpu_images, &mut render_elements);
    assert!(r.is_ok());
    assert_eq!(queue.op_count(), 1);
    assert!(render_elements.get(1).is_none());
}

#[test]
fn prepare_asset_asks_for_retry_when_not_ready() {
    let mut ctx = WebVideoContext::new(ErrorPolicy::Recoverable);
    ctx.create_resource(1, 10, ElementHandle { raw: 1 });
    ctx.on_playing(1);
    let video = ctx.video_element(1).unwrap();
    let empty_gpu: KeyedStore<GpuImage> = KeyedStore::new();
    let mut render_elements: RenderElements = KeyedStore::new();
    extract_elements(&ctx, &mut render_elements);
    let mut queue = RenderQueue::new();
    let r = RenderVideoElement::prepare_asset(video, 1, &mut queue, &empty_gpu, &mut render_elements);
    assert_eq!(r, Err(PrepareAssetError::RetryNextUpdate(video)));
    assert_eq!(queue.op_count(), 0);
    // The extracted element stays for the retry.
    assert!(render_elements.get(1).is_some());
}

#[test]
fn removed_resource_is_not_extracted() {
    let mut ctx = WebVideoContext::new(ErrorPolicy::Recoverable);
    ctx.create_resource(1, 10, ElementHandle { raw: 1 });
    ctx.on_playing(1);
    // Messages may still sit in flight, but the render phase reads only the
    // registry and the renderable flag: after removal, nothing is copied.
    ctx.host_fire(1, EventType::Playing);
    ctx.remove_resource(1);
    let gpu_images = gpu_store(10, 900, 640, 360);
    let mut queue = RenderQueue::new();
    render_phase(&ctx, &gpu_images, &mut queue);
    assert_eq!(queue.op_count(), 0);
}
