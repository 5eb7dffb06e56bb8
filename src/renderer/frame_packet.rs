//! The per-frame description that the scene hands to the renderer.

use vstd::prelude::*;

use super::{AtlasId, ModelId};

verus! {

/// The instances of one model to draw this frame. `I` is the per-instance data
/// (its transforms).
pub struct FramePacketModel<I> {
    pub model_id: ModelId,
    pub instances: Vec<I>,
}

/// The sprites of one atlas to draw this frame. `S` is the per-sprite data (its
/// screen and atlas rectangles).
pub struct FramePacketSprites<S> {
    pub atlas_id: AtlasId,
    pub sprites: Vec<S>,
}

/// Describes a frame for the renderer to draw in its entirety. `M` is the matrix
/// type of the view and projection transforms.
pub struct FramePacket<M, I, S> {
    pub view: M,
    pub proj: M,
    pub models: Vec<FramePacketModel<I>>,
    pub overlay_sprites: Vec<FramePacketSprites<S>>,
}

} // verus!
