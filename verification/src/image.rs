//! Plain-value models of the destination textures the bridge populates: the
//! engine-side image asset the resize handlers (re)allocate, and the realized
//! GPU-side image the extraction step copies decoded frames into.

use vstd::prelude::*;

verus! {

/// A texture extent: width, height and layer count.
#[derive(Clone, Copy, PartialEq, Eq, Structural, Debug)]
pub struct Extent3d {
    /// Texture width in texels.
    pub width: u32,
    /// Texture height in texels.
    pub height: u32,
    /// Depth or number of array layers; video frames use a single layer.
    pub depth_or_array_layers: u32,
}

/// The texel format of a destination texture.
#[derive(Clone, Copy, PartialEq, Eq, Structural, Debug)]
pub enum TextureFormat {
    /// Four 8-bit channels, linear color.
    Rgba8Unorm,
    /// Four 8-bit channels, sRGB-encoded color.
    Rgba8UnormSrgb,
}

/// An engine-side image asset: the destination a video resource renders into.
#[derive(Clone, Copy, PartialEq, Eq, Structural, Debug)]
pub struct Image {
    /// The texture extent.
    pub size: Extent3d,
    /// The texel format.
    pub format: TextureFormat,
    /// Whether the texture may be used as a render attachment.
    pub render_attachment: bool,
}

/// The image the resize handlers allocate for a stream of the given
/// dimensions: one layer, linear RGBA, usable as a render attachment.
pub open spec fn spec_video_target_image(width: u32, height: u32) -> Image {
    Image {
        size: Extent3d { width, height, depth_or_array_layers: 1 },
        format: TextureFormat::Rgba8Unorm,
        render_attachment: true,
    }
}

impl Image {
    /// Allocates the destination image for a stream of the given dimensions.
    pub fn for_video_frame(width: u32, height: u32) -> (r: Image)
        ensures
            r == spec_video_target_image(width, height),
    {
        Image {
            size: Extent3d { width, height, depth_or_array_layers: 1 },
            format: TextureFormat::Rgba8Unorm,
            render_attachment: true,
        }
    }
}

/// A realized GPU-side image: the texture the platform copy primitive writes
/// decoded frames into. Until the engine realizes it, the extraction step
/// skips the resource and retries on a later phase.
#[derive(Clone, Copy, PartialEq, Eq, Structural, Debug)]
pub struct GpuImage {
    /// An opaque token for the GPU texture object.
    pub texture: u64,
    /// The realized extent; copies are sized to it.
    pub size: Extent3d,
}

} // verus!
