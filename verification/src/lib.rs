//! A frame-synchronous bridge between host-owned playable media resources and
//! a rendering engine: a registry of live resources keyed by stable ids, a
//! channel-based event bridge that turns asynchronous host callbacks into
//! tick-synchronous notifications, a resource lifecycle manager, and a
//! render-time extraction step that copies decoded frames into GPU textures.

use vstd::prelude::*;

pub mod bridge;
pub mod channel;
pub mod event;
pub mod image;
pub mod lifecycle;
pub mod registry;
pub mod render;
pub mod store;

verus! {

/// A stable identifier for a video resource, unique while the resource is live.
pub type VideoAssetId = u64;

/// The component a consuming entity carries to hold on to a video resource:
/// a wrapper around the resource's stable asset id.
#[derive(Clone, Copy, PartialEq, Eq, Structural, Debug)]
pub struct WebVideo {
    asset_id: VideoAssetId,
}

impl WebVideo {
    /// The id of the video resource held.
    pub closed spec fn spec_asset_id(&self) -> VideoAssetId {
        self.asset_id
    }

    /// Wraps a video resource id.
    pub fn new(asset_id: VideoAssetId) -> (r: WebVideo)
        ensures
            r.spec_asset_id() == asset_id,
    {
        WebVideo { asset_id }
    }

    /// Returns the id of the video resource held.
    pub fn asset_id(&self) -> (r: VideoAssetId)
        ensures
            r == self.spec_asset_id(),
    {
        self.asset_id
    }

    /// Returns the id of the backing asset, for asset-keyed observers.
    pub fn as_asset_id(&self) -> (r: VideoAssetId)
        ensures
            r == self.spec_asset_id(),
    {
        self.asset_id
    }
}

/// Error type for failures reported by direct, synchronous host platform calls.
///
/// Asynchronous playback failures are not carried here; they arrive as
/// notifications of the error kind through the event bridge.
pub struct WebVideoError {
    message: String,
}

impl WebVideoError {
    /// The diagnostic message, as a sequence of characters.
    pub closed spec fn spec_message(&self) -> Seq<char> {
        self.message@
    }

    /// Wraps a diagnostic message from a failed host call.
    pub fn new(message: String) -> (r: WebVideoError)
        ensures
            r.spec_message() == message@,
    {
        WebVideoError { message }
    }

    /// Returns the diagnostic message.
    pub fn message(&self) -> (r: &String)
        ensures
            r@ == self.spec_message(),
    {
        &self.message
    }
}

} // verus!
