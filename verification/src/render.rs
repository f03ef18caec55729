//! The render extraction step. Once per render-prepare phase, every resource
//! currently marked renderable whose destination texture is realized gets
//! exactly one frame copy submitted to the platform queue; a resource whose
//! destination is not yet realized is skipped and retried on a later phase —
//! an expected outcome, never an error. The step reads lifecycle state and
//! never mutates it.

use vstd::prelude::*;
use crate::image::{Extent3d, GpuImage};
use crate::lifecycle::{VideoElement, WebVideoContext};
use crate::registry::ElementHandle;
use crate::store::{has_key, remove_key, unique_keys, value_of, KeyedStore};

verus! {

/// A texel origin in a two-dimensional source.
#[derive(Clone, Copy, PartialEq, Eq, Structural, Debug)]
pub struct Origin2d {
    /// Horizontal offset in texels.
    pub x: u32,
    /// Vertical offset in texels.
    pub y: u32,
}

/// A texel origin in a three-dimensional destination.
#[derive(Clone, Copy, PartialEq, Eq, Structural, Debug)]
pub struct Origin3d {
    /// Horizontal offset in texels.
    pub x: u32,
    /// Vertical offset in texels.
    pub y: u32,
    /// Layer offset.
    pub z: u32,
}

/// Which aspects of the destination texture a copy writes.
#[derive(Clone, Copy, PartialEq, Eq, Structural, Debug)]
pub enum TextureAspect {
    /// Every aspect.
    All,
    /// Only the stencil aspect.
    StencilOnly,
    /// Only the depth aspect.
    DepthOnly,
}

/// The color space the copied frame is converted into.
#[derive(Clone, Copy, PartialEq, Eq, Structural, Debug)]
pub enum PredefinedColorSpace {
    /// Standard sRGB.
    Srgb,
    /// Display-P3.
    DisplayP3,
}

/// The source half of an external-image copy: the live host element the
/// decoded frame is read from.
#[derive(Clone, Copy, PartialEq, Eq, Structural, Debug)]
pub struct CopyExternalImageSourceInfo {
    /// The host element holding the decoded frame.
    pub source: ElementHandle,
    /// The texel origin to read from.
    pub origin: Origin2d,
    /// Whether to flip the frame vertically while copying.
    pub flip_y: bool,
}

/// The destination half of an external-image copy: the GPU texture written.
#[derive(Clone, Copy, PartialEq, Eq, Structural, Debug)]
pub struct CopyExternalImageDestInfo {
    /// The GPU texture object written to.
    pub texture: u64,
    /// The destination mip level.
    pub mip_level: u32,
    /// The texel origin to write at.
    pub origin: Origin3d,
    /// The texture aspects written.
    pub aspect: TextureAspect,
    /// The color space the frame is converted into.
    pub color_space: PredefinedColorSpace,
    /// Whether the destination alpha is premultiplied.
    pub premultiplied_alpha: bool,
}

/// One frame copy submitted to the platform queue.
#[derive(Clone, Copy, PartialEq, Eq, Structural, Debug)]
pub struct ExternalImageCopy {
    /// Where the decoded frame is read from.
    pub source: CopyExternalImageSourceInfo,
    /// Where the frame is written.
    pub dest: CopyExternalImageDestInfo,
    /// The copy extent, sized to the destination's current extent.
    pub size: Extent3d,
}

/// The source parameters the bridge always copies with: origin (0,0), no
/// vertical flip.
pub open spec fn spec_copy_source(source: ElementHandle) -> CopyExternalImageSourceInfo {
    CopyExternalImageSourceInfo { source, origin: Origin2d { x: 0, y: 0 }, flip_y: false }
}

/// The destination parameters the bridge always copies with: mip level 0,
/// origin (0,0,0), full aspect, sRGB color space, premultiplied alpha.
pub open spec fn spec_copy_dest(texture: u64) -> CopyExternalImageDestInfo {
    CopyExternalImageDestInfo {
        texture,
        mip_level: 0,
        origin: Origin3d { x: 0, y: 0, z: 0 },
        aspect: TextureAspect::All,
        color_space: PredefinedColorSpace::Srgb,
        premultiplied_alpha: true,
    }
}

/// The one copy the extraction step submits for a resource: from the live
/// host element into the realized destination texture, sized to its extent.
pub open spec fn copy_op_for(source: ElementHandle, gpu: GpuImage) -> ExternalImageCopy {
    ExternalImageCopy {
        source: spec_copy_source(source),
        dest: spec_copy_dest(gpu.texture),
        size: gpu.size,
    }
}

/// The platform render queue, modeled by the trace of copy commands submitted
/// to it, in submission order.
pub struct RenderQueue {
    ops: Vec<ExternalImageCopy>,
}

impl View for RenderQueue {
    type V = Seq<ExternalImageCopy>;

    closed spec fn view(&self) -> Seq<ExternalImageCopy> {
        self.ops@
    }
}

impl RenderQueue {
    /// A queue with no copies submitted yet.
    pub fn new() -> (r: RenderQueue)
        ensures
            r@ == Seq::<ExternalImageCopy>::empty(),
    {
        RenderQueue { ops: Vec::new() }
    }

    /// Submits one copy of an external decoded frame into a GPU texture.
    pub fn copy_external_image_to_texture(
        &mut self,
        source: CopyExternalImageSourceInfo,
        dest: CopyExternalImageDestInfo,
        size: Extent3d,
    )
        ensures
            final (self)@ == old(self)@.push(ExternalImageCopy { source, dest, size }),
    {
        self.ops.push(ExternalImageCopy { source, dest, size });
    }

    /// The number of copies submitted.
    pub fn op_count(&self) -> (n: usize)
        ensures
            n == self@.len(),
    {
        self.ops.len()
    }

    /// The copy submitted at position `i`.
    pub fn op_at(&self, i: usize) -> (op: ExternalImageCopy)
        requires
            i < self@.len(),
        ensures
            op == self@[i as int],
    {
        self.ops[i]
    }
}

/// The host elements extracted for the current phase, keyed by asset id.
pub type RenderElements = KeyedStore<ElementHandle>;

/// What one extraction pass leaves in the extracted-element map: walking the
/// video assets in store order, every renderable, still-registered resource's
/// host element is entered under its id.
pub open spec fn extract_fold(
    re: Seq<(u64, ElementHandle)>,
    videos: Seq<(u64, VideoElement)>,
    reg: Seq<(u64, crate::registry::RegisteredElement)>,
) -> Seq<(u64, ElementHandle)>
    decreases videos.len(),
{
    if videos.len() == 0 {
        re
    } else {
        let prefix = extract_fold(re, videos.drop_last(), reg);
        let pair = videos.last();
        if pair.1.renderable && has_key(reg, pair.0) {
            remove_key(prefix, pair.0).push((pair.0, value_of(reg, pair.0).spec_element()))
        } else {
            prefix
        }
    }
}

/// The extraction pass: records the host element of every resource currently
/// marked renderable that is still registered. Reads lifecycle state only.
pub fn extract_elements(ctx: &WebVideoContext, render_elements: &mut RenderElements)
    requires
        ctx.wf(),
        old(render_elements).wf(),
    ensures
        final (render_elements).wf(),
        final (render_elements)@ == extract_fold(
            old(render_elements)@,
            ctx.spec_videos(),
            ctx.spec_registry()@,
        ),
{
    let n = ctx.video_count();
    let mut i: usize = 0;
    while i < n
        invariant
            ctx.wf(),
            n == ctx.spec_videos().len(),
            i <= n,
            render_elements.wf(),
            render_elements@ == extract_fold(
                old(render_elements)@,
                ctx.spec_videos().take(i as int),
                ctx.spec_registry()@,
            ),
        decreases n - i,
    {
        proof {
            assert(ctx.spec_videos().take(i as int + 1).drop_last() =~= ctx.spec_videos().take(
                i as int,
            ));
            assert(ctx.spec_videos().take(i as int + 1).last() == ctx.spec_videos()[i as int]);
        }
        let (asset_id, video) = ctx.video_at(i);
        if video.is_renderable() {
            match ctx.registry().element(asset_id) {
                Some(handle) => {
                    render_elements.upsert(asset_id, handle);
                },
                None => {},
            }
        }
        i += 1;
    }
    proof {
        assert(ctx.spec_videos().take(n as int) =~= ctx.spec_videos());
    }
}

/// The retry outcome of preparing one resource for rendering.
#[derive(Clone, Copy, PartialEq, Eq, Structural, Debug)]
pub enum PrepareAssetError {
    /// The resource is not ready this phase — its destination texture is not
    /// realized, or it was not extracted; prepare it again next phase.
    RetryNextUpdate(VideoElement),
}

/// Marker result of a successfully prepared resource: the copy itself was
/// already submitted while preparing.
#[derive(Clone, Copy, PartialEq, Eq, Structural, Debug)]
pub struct RenderVideoElement;

impl RenderVideoElement {
    /// Prepares one resource: when its destination texture is realized and
    /// its host element was extracted this phase, submits exactly one copy of
    /// the current decoded frame — source origin (0,0), no flip, mip 0,
    /// destination origin (0,0,0), full aspect, sRGB, premultiplied alpha,
    /// sized to the realized extent — and consumes the extracted element.
    /// Otherwise changes nothing and asks to be retried next phase.
    pub fn prepare_asset(
        video_element: VideoElement,
        asset_id: u64,
        render_queue: &mut RenderQueue,
        gpu_images: &KeyedStore<GpuImage>,
        render_elements: &mut RenderElements,
    ) -> (r: Result<RenderVideoElement, PrepareAssetError>)
        requires
            gpu_images.wf(),
            old(render_elements).wf(),
        ensures
            final (render_elements).wf(),
            has_key(gpu_images@, video_element.target_image_id) && has_key(
                old(render_elements)@,
                asset_id,
            ) ==> {
                &&& r is Ok
                &&& final (render_queue)@ == old(render_queue)@.push(
                    copy_op_for(
                        value_of(old(render_elements)@, asset_id),
                        value_of(gpu_images@, video_element.target_image_id),
                    ),
                )
                &&& final (render_elements)@ == remove_key(old(render_elements)@, asset_id)
            },
            !(has_key(gpu_images@, video_element.target_image_id) && has_key(
                old(render_elements)@,
                asset_id,
            )) ==> {
                &&& r == Err::<RenderVideoElement, PrepareAssetError>(
                    PrepareAssetError::RetryNextUpdate(video_element),
                )
                &&& final (render_queue)@ == old(render_queue)@
                &&& final (render_elements)@ == old(render_elements)@
            },
    {
        match gpu_images.get(video_element.target_image_id) {
            Some(gpu) => {
                let gpu = *gpu;
                match render_elements.remove(asset_id) {
                    Some(handle) => {
                        render_queue.copy_external_image_to_texture(
                            CopyExternalImageSourceInfo {
                                source: handle,
                                origin: Origin2d { x: 0, y: 0 },
                                flip_y: false,
                            },
                            CopyExternalImageDestInfo {
                                texture: gpu.texture,
                                mip_level: 0,
                                origin: Origin3d { x: 0, y: 0, z: 0 },
                                aspect: TextureAspect::All,
                                color_space: PredefinedColorSpace::Srgb,
                                premultiplied_alpha: true,
                            },
                            gpu.size,
                        );
                        Ok(RenderVideoElement)
                    },
                    None => Err(PrepareAssetError::RetryNextUpdate(video_element)),
                }
            },
            None => Err(PrepareAssetError::RetryNextUpdate(video_element)),
        }
    }
}

/// Whether one render-prepare phase copies a frame for `asset_id`: the
/// resource exists, is marked renderable, its registry entry is live, and its
/// destination texture is realized.
pub open spec fn eligible_for_copy(
    videos: Seq<(u64, VideoElement)>,
    reg: Seq<(u64, crate::registry::RegisteredElement)>,
    gpu: Seq<(u64, GpuImage)>,
    asset_id: u64,
) -> bool {
    &&& has_key(videos, asset_id)
    &&& value_of(videos, asset_id).renderable
    &&& has_key(reg, asset_id)
    &&& has_key(gpu, value_of(videos, asset_id).target_image_id)
}

/// The copies one phase submits, each tagged with the resource it serves:
/// walking the video assets in store order, one copy per resource that is
/// renderable, registered, and has a realized destination.
pub open spec fn phase_copies(
    videos: Seq<(u64, VideoElement)>,
    reg: Seq<(u64, crate::registry::RegisteredElement)>,
    gpu: Seq<(u64, GpuImage)>,
) -> Seq<(u64, ExternalImageCopy)>
    decreases videos.len(),
{
    if videos.len() == 0 {
        Seq::empty()
    } else {
        let rest = phase_copies(videos.drop_last(), reg, gpu);
        let pair = videos.last();
        if pair.1.renderable && has_key(reg, pair.0) && has_key(gpu, pair.1.target_image_id) {
            rest.push(
                (
                    pair.0,
                    copy_op_for(
                        value_of(reg, pair.0).spec_element(),
                        value_of(gpu, pair.1.target_image_id),
                    ),
                ),
            )
        } else {
            rest
        }
    }
}

/// The submitted copies of a phase, with the resource tags dropped.
pub open spec fn copy_ops_of(pairs: Seq<(u64, ExternalImageCopy)>) -> Seq<ExternalImageCopy>
    decreases pairs.len(),
{
    if pairs.len() == 0 {
        Seq::empty()
    } else {
        copy_ops_of(pairs.drop_last()).push(pairs.last().1)
    }
}

/// How many of a phase's copies serve resource `asset_id`.
pub open spec fn copies_for(pairs: Seq<(u64, ExternalImageCopy)>, asset_id: u64) -> nat
    decreases pairs.len(),
{
    if pairs.len() == 0 {
        0
    } else {
        copies_for(pairs.drop_last(), asset_id) + if pairs.last().0 == asset_id {
            1nat
        } else {
            0nat
        }
    }
}

/// One render-prepare phase: extracts the currently renderable resources and
/// prepares each video asset once, submitting the frame copies of this phase
/// in store order. Reads lifecycle state only; resources whose destination is
/// not realized are skipped, to be retried next phase.
pub fn render_phase(
    ctx: &WebVideoContext,
    gpu_images: &KeyedStore<GpuImage>,
    render_queue: &mut RenderQueue,
)
    requires
        ctx.wf(),
        gpu_images.wf(),
    ensures
        final (render_queue)@ == old(render_queue)@ + copy_ops_of(
            phase_copies(ctx.spec_videos(), ctx.spec_registry()@, gpu_images@),
        ),
{
    let n = ctx.video_count();
    let mut i: usize = 0;
    while i < n
        invariant
            ctx.wf(),
            gpu_images.wf(),
            n == ctx.spec_videos().len(),
            i <= n,
            render_queue@ == old(render_queue)@ + copy_ops_of(
                phase_copies(
                    ctx.spec_videos().take(i as int),
                    ctx.spec_registry()@,
                    gpu_images@,
                ),
            ),
        decreases n - i,
    {
        proof {
            assert(ctx.spec_videos().take(i as int + 1).drop_last() =~= ctx.spec_videos().take(
                i as int,
            ));
            assert(ctx.spec_videos().take(i as int + 1).last() == ctx.spec_videos()[i as int]);
        }
        let (asset_id, video) = ctx.video_at(i);
        if video.is_renderable() {
            match ctx.registry().element(asset_id) {
                Some(handle) => {
                    match gpu_images.get(video.target_image_id()) {
                        Some(gpu) => {
                            let gpu = *gpu;
                            render_queue.copy_external_image_to_texture(
                                CopyExternalImageSourceInfo {
                                    source: handle,
                                    origin: Origin2d { x: 0, y: 0 },
                                    flip_y: false,
                                },
                                CopyExternalImageDestInfo {
                                    texture: gpu.texture,
                                    mip_level: 0,
                                    origin: Origin3d { x: 0, y: 0, z: 0 },
                                    aspect: TextureAspect::All,
                                    color_space: PredefinedColorSpace::Srgb,
                                    premultiplied_alpha: true,
                                },
                                gpu.size,
                            );
                            proof {
                                let rest = phase_copies(
                                    ctx.spec_videos().take(i as int),
                                    ctx.spec_registry()@,
                                    gpu_images@,
                                );
                                let tail = phase_copies(
                                    ctx.spec_videos().take(i as int + 1),
                                    ctx.spec_registry()@,
                                    gpu_images@,
                                );
                                let p = (
                                    asset_id,
                                    copy_op_for(
                                        value_of(ctx.spec_registry()@, asset_id).spec_element(),
                                        value_of(gpu_images@, video.target_image_id),
                                    ),
                                );
                                assert(tail == rest.push(p));
                                assert(tail.drop_last() =~= rest);
                                assert(tail.last() == p);
                                assert(copy_ops_of(tail) == copy_ops_of(rest).push(p.1));
                                assert(render_queue@ =~= old(render_queue)@ + copy_ops_of(tail));
                            }
                        },
                        None => {},
                    }
                },
                None => {},
            }
        }
        i += 1;
    }
    proof {
        assert(ctx.spec_videos().take(n as int) =~= ctx.spec_videos());
    }
}

/// Law (renderable gating): a phase submits zero copies for a resource that
/// is not renderable — in particular for one whose renderable flag has never
/// been set — or whose destination is not realized, and exactly one copy for
/// every resource that is renderable, registered and realized.
pub proof fn lemma_renderable_gating(
    videos: Seq<(u64, VideoElement)>,
    reg: Seq<(u64, crate::registry::RegisteredElement)>,
    gpu: Seq<(u64, GpuImage)>,
    asset_id: u64,
)
    requires
        unique_keys(videos),
    ensures
        copies_for(phase_copies(videos, reg, gpu), asset_id) == if eligible_for_copy(
            videos,
            reg,
            gpu,
            asset_id,
        ) {
            1nat
        } else {
            0nat
        },
    decreases videos.len(),
{
    if videos.len() == 0 {
    } else {
        let vs0 = videos.drop_last();
        let pair = videos.last();
        assert(unique_keys(vs0)) by {
            assert forall|i: int, j: int| 0 <= i < j < vs0.len() implies (#[trigger] vs0[i]).0 != (
            #[trigger] vs0[j]).0 by {
                assert(videos[i].0 != videos[j].0);
            }
        }
        lemma_renderable_gating(vs0, reg, gpu, asset_id);
        let tail_copies = phase_copies(videos, reg, gpu);
        let rest = phase_copies(vs0, reg, gpu);
        if pair.0 == asset_id {
            crate::store::lemma_index_of_key(videos, asset_id, videos.len() - 1);
            assert(value_of(videos, asset_id) == pair.1);
            assert(!has_key(vs0, asset_id)) by {
                if has_key(vs0, asset_id) {
                    let j = crate::store::index_of_key(vs0, asset_id);
                    assert(vs0[j] == videos[j]);
                    crate::store::lemma_at_most_one_entry(
                        videos,
                        asset_id,
                        j,
                        videos.len() - 1,
                    );
                }
            }
            assert(copies_for(rest, asset_id) == 0);
            if pair.1.renderable && has_key(reg, pair.0) && has_key(gpu, pair.1.target_image_id) {
                let p = (
                    pair.0,
                    copy_op_for(
                        value_of(reg, pair.0).spec_element(),
                        value_of(gpu, pair.1.target_image_id),
                    ),
                );
                assert(tail_copies == rest.push(p));
                assert(tail_copies.drop_last() =~= rest);
                assert(tail_copies.last() == p);
                assert(copies_for(tail_copies, asset_id) == 1);
                assert(eligible_for_copy(videos, reg, gpu, asset_id));
            } else {
                assert(copies_for(tail_copies, asset_id) == 0);
                assert(!eligible_for_copy(videos, reg, gpu, asset_id));
            }
        } else {
            crate::store::lemma_drop_last_key(videos, asset_id);
            assert(eligible_for_copy(videos, reg, gpu, asset_id) == eligible_for_copy(
                vs0,
                reg,
                gpu,
                asset_id,
            ));
            if pair.1.renderable && has_key(reg, pair.0) && has_key(gpu, pair.1.target_image_id) {
                let p = (
                    pair.0,
                    copy_op_for(
                        value_of(reg, pair.0).spec_element(),
                        value_of(gpu, pair.1.target_image_id),
                    ),
                );
                assert(tail_copies == rest.push(p));
                assert(tail_copies.drop_last() =~= rest);
                assert(tail_copies.last() == p);
                assert(copies_for(tail_copies, asset_id) == copies_for(rest, asset_id));
            } else {
                assert(copies_for(tail_copies, asset_id) == copies_for(rest, asset_id));
            }
        }
    }
}

} // verus!
