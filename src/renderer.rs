//! The renderer's resource registry and the ordered draw plan of a frame.
//!
//! GPU resources and their per-stage bindings are opaque here: the registry
//! stores them under handles that it allocates, and a frame packet is turned
//! into the list of draws that the GPU side then records.

use vstd::prelude::*;

pub mod frame_packet;
pub mod sprite_overlay;

use frame_packet::{FramePacket, FramePacketModel};
use sprite_overlay::{
    atlases_known, first_unknown_atlas, overlay_pass, SpriteOverlayRenderStage,
};

verus! {

/// Exposed as a handle to a model uploaded to the GPU
#[derive(Clone, Copy, Debug, PartialEq, Eq, Hash, Structural)]
pub struct ModelId(usize);

/// Exposed as a handle to a sprite atlas uploaded to the GPU
#[derive(Clone, Copy, Debug, PartialEq, Eq, Hash, Structural)]
pub struct AtlasId(usize);

impl ModelId {
    /// The position of the handle in the order of allocation.
    pub closed spec fn id(self) -> nat {
        self.0 as nat
    }

    pub fn index(&self) -> (r: usize)
        ensures
            r as nat == self.id(),
    {
        self.0
    }
}

impl AtlasId {
    /// The position of the handle in the order of allocation.
    pub closed spec fn id(self) -> nat {
        self.0 as nat
    }

    pub fn index(&self) -> (r: usize)
        ensures
            r as nat == self.id(),
    {
        self.0
    }
}

/// One step of a frame, in the order in which it is recorded.
#[derive(Clone, Copy, Debug, PartialEq, Eq, Structural)]
pub enum DrawCommand {
    /// Copy the frame's view and projection matrices into the uniform that every
    /// forward draw shares.
    UpdateViewProjection,
    /// Draw the instances of the packet's model group `group`: an indexed,
    /// depth-tested, back-face-culled triangle list into color and depth.
    Forward { model_id: ModelId, group: usize, instance_count: usize },
    /// Draw the sprites of the packet's sprite group `group`: an alpha-blended
    /// triangle strip of four vertices per sprite over the color output, without
    /// depth testing.
    Overlay { atlas_id: AtlasId, group: usize, instance_count: usize },
}

/// A frame packet that refers to a handle the registry never issued.
#[derive(Clone, Copy, Debug, PartialEq, Eq, Structural)]
pub enum DrawError {
    UnknownModel(ModelId),
    UnknownAtlas(AtlasId),
}

/// Whether every model group refers to one of the first `n` model handles.
pub open spec fn models_known<I>(groups: Seq<FramePacketModel<I>>, n: nat) -> bool {
    forall|i: int| 0 <= i < groups.len() ==> (#[trigger] groups[i]).model_id.id() < n
}

/// The draw of model group `i`.
pub open spec fn forward_draw<I>(groups: Seq<FramePacketModel<I>>, i: int) -> DrawCommand {
    DrawCommand::Forward {
        model_id: groups[i].model_id,
        group: i as usize,
        instance_count: groups[i].instances@.len() as usize,
    }
}

/// The forward pass of a frame: the shared uniform is updated once, then each
/// model group is drawn in the packet's order.
pub open spec fn forward_pass<I>(groups: Seq<FramePacketModel<I>>) -> Seq<DrawCommand> {
    seq![DrawCommand::UpdateViewProjection] + Seq::new(
        groups.len(),
        |i: int| forward_draw(groups, i),
    )
}

/// The error for the first model group, in the packet's order, whose handle is not
/// among the first `n`.
pub open spec fn first_unknown_model<I>(
    groups: Seq<FramePacketModel<I>>,
    n: nat,
    e: DrawError,
) -> bool {
    exists|k: int|
        0 <= k < groups.len() && #[trigger] groups[k].model_id.id() >= n && models_known(
            groups.take(k),
            n,
        ) && e == DrawError::UnknownModel(groups[k].model_id)
}

/// Draws all model instances with depth testing; holds the texture binding of
/// each model, indexed by its handle.
pub struct ForwardRenderStage<B> {
    texture_bind_groups: Vec<B>,
}

impl<B> ForwardRenderStage<B> {
    /// The texture binding of every model, in the order of the handles.
    pub closed spec fn bindings(&self) -> Seq<B> {
        self.texture_bind_groups@
    }

    pub fn new() -> (r: Self)
        ensures
            r.bindings() == Seq::<B>::empty(),
    {
        ForwardRenderStage { texture_bind_groups: Vec::new() }
    }

    /// Caches the texture binding of the model that was just given `model_id`.
    pub fn add_model(&mut self, model_id: ModelId, binding: B)
        requires
            model_id.id() == old(self).bindings().len(),
        ensures
            final(self).bindings() == old(self).bindings().push(binding),
    {
        self.texture_bind_groups.push(binding);
    }

    /// The texture binding of a model, if its handle is known.
    pub fn binding(&self, model_id: ModelId) -> (r: Option<&B>)
        ensures
            model_id.id() < self.bindings().len() ==> r == Some(&self.bindings()[model_id.id() as int]),
            model_id.id() >= self.bindings().len() ==> r is None,
    {
        if model_id.0 < self.texture_bind_groups.len() {
            Some(&self.texture_bind_groups[model_id.0])
        } else {
            None
        }
    }

    /// The forward pass of a frame, or the first model group whose handle has no
    /// texture binding here.
    pub fn draw_frame<M, I, S>(&self, frame_packet: &FramePacket<M, I, S>) -> (r: Result<
        Vec<DrawCommand>,
        DrawError,
    >)
        ensures
            r is Ok <==> models_known(frame_packet.models@, self.bindings().len()),
            r matches Ok(v) ==> v@ == forward_pass(frame_packet.models@),
            r matches Err(e) ==> first_unknown_model(
                frame_packet.models@,
                self.bindings().len(),
                e,
            ),
    {
        let groups = &frame_packet.models;
        let n = self.texture_bind_groups.len();
        let mut commands: Vec<DrawCommand> = Vec::new();
        commands.push(DrawCommand::UpdateViewProjection);
        let mut i: usize = 0;
        while i < groups.len()
            invariant
                0 <= i <= groups@.len(),
                groups@ == frame_packet.models@,
                n == self.bindings().len(),
                models_known(groups@.take(i as int), n as nat),
                commands@ == forward_pass(groups@.take(i as int)),
            decreases groups@.len() - i,
        {
            let group = &groups[i];
            if group.model_id.0 >= n {
                let e = DrawError::UnknownModel(group.model_id);
                proof {
                    let k = i as int;
                    assert(groups@[k].model_id.id() >= n);
                    assert(first_unknown_model(groups@, n as nat, e));
                }
                return Err(e);
            }
            commands.push(
                DrawCommand::Forward {
                    model_id: group.model_id,
                    group: i,
                    instance_count: group.instances.len(),
                },
            );
            proof {
                let next = groups@.take(i + 1);
                assert(next.take(i as int) =~= groups@.take(i as int));
                assert forall|j: int| 0 <= j < next.len() implies (#[trigger] next[j]).model_id.id()
                    < n by {
                    if j < i {
                        assert(next[j] == groups@.take(i as int)[j]);
                    }
                }
                assert(commands@ =~= forward_pass(next));
            }
            i += 1;
        }
        assert(groups@.take(i as int) =~= groups@);
        Ok(commands)
    }
}

/// The draws of a whole frame: the forward pass, then the overlay pass, which
/// composites over the forward pass's color output.
pub open spec fn frame_plan<M, I, S>(frame_packet: FramePacket<M, I, S>) -> Seq<DrawCommand> {
    forward_pass(frame_packet.models@) + overlay_pass(frame_packet.overlay_sprites@)
}

/// Owns every uploaded model and sprite atlas under the handle that it allocated,
/// together with each render stage's binding for it, and orders the draws of a
/// frame. `M` and `A` are the GPU-resident model and atlas; `MB` and `AB` the
/// texture bindings of the forward and overlay stages.
pub struct Renderer<M, A, MB, AB> {
    models: Vec<M>,
    atlases: Vec<A>,
    forward_render_stage: ForwardRenderStage<MB>,
    sprite_overlay_render_stage: SpriteOverlayRenderStage<AB>,
}

impl<M, A, MB, AB> Renderer<M, A, MB, AB> {
    /// Every uploaded model, in the order of its handle.
    pub closed spec fn models(&self) -> Seq<M> {
        self.models@
    }

    /// Every uploaded atlas, in the order of its handle.
    pub closed spec fn atlases(&self) -> Seq<A> {
        self.atlases@
    }

    /// The forward stage's binding for every model, in the order of its handle.
    pub closed spec fn model_bindings(&self) -> Seq<MB> {
        self.forward_render_stage.bindings()
    }

    /// The overlay stage's binding for every atlas, in the order of its handle.
    pub closed spec fn atlas_bindings(&self) -> Seq<AB> {
        self.sprite_overlay_render_stage.bindings()
    }

    /// No handle is half-registered: each resource has its stage binding.
    pub open spec fn wf(&self) -> bool {
        &&& self.model_bindings().len() == self.models().len()
        &&& self.atlas_bindings().len() == self.atlases().len()
    }

    pub fn new() -> (r: Self)
        ensures
            r.wf(),
            r.models() == Seq::<M>::empty(),
            r.atlases() == Seq::<A>::empty(),
            r.model_bindings() == Seq::<MB>::empty(),
            r.atlas_bindings() == Seq::<AB>::empty(),
    {
        Renderer {
            models: Vec::new(),
            atlases: Vec::new(),
            forward_render_stage: ForwardRenderStage::new(),
            sprite_overlay_render_stage: SpriteOverlayRenderStage::new(),
        }
    }

    /// Stores a model and its forward-stage binding under the next unused handle,
    /// which is returned. Handles count up from 0 and are never reused.
    pub fn upload_model(&mut self, model: M, binding: MB) -> (id: ModelId)
        requires
            old(self).wf(),
        ensures
            final(self).wf(),
            id.id() == old(self).models().len(),
            final(self).models() == old(self).models().push(model),
            final(self).model_bindings() == old(self).model_bindings().push(binding),
            final(self).atlases() == old(self).atlases(),
            final(self).atlas_bindings() == old(self).atlas_bindings(),
    {
        let new_model_id = ModelId(self.models.len());
        self.forward_render_stage.add_model(new_model_id, binding);
        self.models.push(model);
        new_model_id
    }

    /// Stores an atlas and its overlay-stage binding under the next unused handle,
    /// which is returned. Handles count up from 0 and are never reused.
    pub fn upload_atlas(&mut self, atlas: A, binding: AB) -> (id: AtlasId)
        requires
            old(self).wf(),
        ensures
            final(self).wf(),
            id.id() == old(self).atlases().len(),
            final(self).atlases() == old(self).atlases().push(atlas),
            final(self).atlas_bindings() == old(self).atlas_bindings().push(binding),
            final(self).models() == old(self).models(),
            final(self).model_bindings() == old(self).model_bindings(),
    {
        let new_atlas_id = AtlasId(self.atlases.len());
        self.sprite_overlay_render_stage.add_atlas(new_atlas_id, binding);
        self.atlases.push(atlas);
        new_atlas_id
    }

    /// The model stored under a handle, if the handle was issued.
    pub fn model(&self, model_id: ModelId) -> (r: Option<&M>)
        ensures
            model_id.id() < self.models().len() ==> r == Some(&self.models()[model_id.id() as int]),
            model_id.id() >= self.models().len() ==> r is None,
    {
        if model_id.0 < self.models.len() {
            Some(&self.models[model_id.0])
        } else {
            None
        }
    }

    /// The atlas stored under a handle, if the handle was issued.
    pub fn atlas(&self, atlas_id: AtlasId) -> (r: Option<&A>)
        ensures
            atlas_id.id() < self.atlases().len() ==> r == Some(&self.atlases()[atlas_id.id() as int]),
            atlas_id.id() >= self.atlases().len() ==> r is None,
    {
        if atlas_id.0 < self.atlases.len() {
            Some(&self.atlases[atlas_id.0])
        } else {
            None
        }
    }

    /// The forward stage's binding for a model, if the handle was issued.
    pub fn model_binding(&self, model_id: ModelId) -> (r: Option<&MB>)
        ensures
            model_id.id() < self.model_bindings().len() ==> r == Some(
                &self.model_bindings()[model_id.id() as int],
            ),
            model_id.id() >= self.model_bindings().len() ==> r is None,
    {
        self.forward_render_stage.binding(model_id)
    }

    /// The overlay stage's binding for an atlas, if the handle was issued.
    pub fn atlas_binding(&self, atlas_id: AtlasId) -> (r: Option<&AB>)
        ensures
            atlas_id.id() < self.atlas_bindings().len() ==> r == Some(
                &self.atlas_bindings()[atlas_id.id() as int],
            ),
            atlas_id.id() >= self.atlas_bindings().len() ==> r is None,
    {
        self.sprite_overlay_render_stage.binding(atlas_id)
    }

    /// The ordered draws of a frame: the forward stage, then the overlay stage.
    ///
    /// A packet that refers to a handle that was never issued is refused with the
    /// first such handle, model groups before sprite groups.
    pub fn draw_frame<Mat, I, S>(&self, frame_packet: &FramePacket<Mat, I, S>) -> (r: Result<
        Vec<DrawCommand>,
        DrawError,
    >)
        requires
            self.wf(),
        ensures
            r is Ok <==> models_known(frame_packet.models@, self.models().len())
                && atlases_known(frame_packet.overlay_sprites@, self.atlases().len()),
            r matches Ok(v) ==> v@ == frame_plan(*frame_packet),
            r matches Err(e) ==> if models_known(frame_packet.models@, self.models().len()) {
                first_unknown_atlas(frame_packet.overlay_sprites@, self.atlases().len(), e)
            } else {
                first_unknown_model(frame_packet.models@, self.models().len(), e)
            },
    {
        let mut commands = match self.forward_render_stage.draw_frame(frame_packet) {
            Ok(commands) => commands,
            Err(e) => {
                return Err(e);
            },
        };
        let mut overlay = match self.sprite_overlay_render_stage.draw_frame(frame_packet) {
            Ok(overlay) => overlay,
            Err(e) => {
                return Err(e);
            },
        };
        commands.append(&mut overlay);
        Ok(commands)
    }
}

/// In every frame plan the shared uniform is updated first, and no overlay draw
/// comes before a forward draw.
pub proof fn lemma_overlay_follows_forward<M, I, S>(frame_packet: FramePacket<M, I, S>)
    ensures
        frame_plan(frame_packet)[0] == DrawCommand::UpdateViewProjection,
        forall|i: int, j: int|
            0 <= i < j < frame_plan(frame_packet).len() && (#[trigger] frame_plan(
                frame_packet,
            )[i]) is Overlay ==> (#[trigger] frame_plan(frame_packet)[j]) is Overlay,
{
    let fwd = forward_pass(frame_packet.models@);
    let plan = frame_plan(frame_packet);
    assert(plan[0] == fwd[0]);
    assert forall|i: int, j: int|
        0 <= i < j < plan.len() && (#[trigger] plan[i]) is Overlay implies (#[trigger] plan[j]) is Overlay by {
        if i < fwd.len() {
            if i > 0 {
                assert(plan[i] == forward_draw(frame_packet.models@, i - 1));
            }
        }
        assert(plan[j] == overlay_pass(frame_packet.overlay_sprites@)[j - fwd.len()]);
    }
}

} // verus!
