//! The 2D sprite overlay, drawn over the forward pass.

use vstd::prelude::*;

use super::frame_packet::{FramePacket, FramePacketSprites};
use super::{AtlasId, DrawCommand, DrawError};

verus! {

/// Whether every sprite group refers to one of the first `n` atlas handles.
pub open spec fn atlases_known<S>(groups: Seq<FramePacketSprites<S>>, n: nat) -> bool {
    forall|i: int| 0 <= i < groups.len() ==> (#[trigger] groups[i]).atlas_id.id() < n
}

/// The draw of sprite group `i`.
pub open spec fn overlay_draw<S>(groups: Seq<FramePacketSprites<S>>, i: int) -> DrawCommand {
    DrawCommand::Overlay {
        atlas_id: groups[i].atlas_id,
        group: i as usize,
        instance_count: groups[i].sprites@.len() as usize,
    }
}

/// The overlay pass of a frame: each sprite group is drawn in the packet's order.
pub open spec fn overlay_pass<S>(groups: Seq<FramePacketSprites<S>>) -> Seq<DrawCommand> {
    Seq::new(groups.len(), |i: int| overlay_draw(groups, i))
}

/// The error for the first sprite group, in the packet's order, whose handle is not
/// among the first `n`.
pub open spec fn first_unknown_atlas<S>(
    groups: Seq<FramePacketSprites<S>>,
    n: nat,
    e: DrawError,
) -> bool {
    exists|k: int|
        0 <= k < groups.len() && #[trigger] groups[k].atlas_id.id() >= n && atlases_known(
            groups.take(k),
            n,
        ) && e == DrawError::UnknownAtlas(groups[k].atlas_id)
}

/// Draws screen-space sprites over the forward pass; holds the texture binding of
/// each atlas, indexed by its handle.
pub struct SpriteOverlayRenderStage<B> {
    texture_bind_groups: Vec<B>,
}

impl<B> SpriteOverlayRenderStage<B> {
    /// The texture binding of every atlas, in the order of the handles.
    pub closed spec fn bindings(&self) -> Seq<B> {
        self.texture_bind_groups@
    }

    pub fn new() -> (r: Self)
        ensures
            r.bindings() == Seq::<B>::empty(),
    {
        SpriteOverlayRenderStage { texture_bind_groups: Vec::new() }
    }

    /// Caches the texture binding of the atlas that was just given `atlas_id`.
    pub fn add_atlas(&mut self, atlas_id: AtlasId, binding: B)
        requires
            atlas_id.id() == old(self).bindings().len(),
        ensures
            final(self).bindings() == old(self).bindings().push(binding),
    {
        self.texture_bind_groups.push(binding);
    }

    /// The texture binding of an atlas, if its handle is known.
    pub fn binding(&self, atlas_id: AtlasId) -> (r: Option<&B>)
        ensures
            atlas_id.id() < self.bindings().len() ==> r == Some(&self.bindings()[atlas_id.id() as int]),
            atlas_id.id() >= self.bindings().len() ==> r is None,
    {
        let i = atlas_id.index();
        if i < self.texture_bind_groups.len() {
            Some(&self.texture_bind_groups[i])
        } else {
            None
        }
    }

    /// The overlay pass of a frame, or the first sprite group whose handle has no
    /// texture binding here.
    pub fn draw_frame<M, I, S>(&self, frame_packet: &FramePacket<M, I, S>) -> (r: Result<
        Vec<DrawCommand>,
        DrawError,
    >)
        ensures
            r is Ok <==> atlases_known(frame_packet.overlay_sprites@, self.bindings().len()),
            r matches Ok(v) ==> v@ == overlay_pass(frame_packet.overlay_sprites@),
            r matches Err(e) ==> first_unknown_atlas(
                frame_packet.overlay_sprites@,
                self.bindings().len(),
                e,
            ),
    {
        let groups = &frame_packet.overlay_sprites;
        let n = self.texture_bind_groups.len();
        let mut commands: Vec<DrawCommand> = Vec::new();
        let mut i: usize = 0;
        while i < groups.len()
            invariant
                0 <= i <= groups@.len(),
                groups@ == frame_packet.overlay_sprites@,
                n == self.bindings().len(),
                atlases_known(groups@.take(i as int), n as nat),
                commands@ == overlay_pass(groups@.take(i as int)),
            decreases groups@.len() - i,
        {
            let group = &groups[i];
            if group.atlas_id.index() >= n {
                let e = DrawError::UnknownAtlas(group.atlas_id);
                proof {
                    let k = i as int;
                    assert(groups@[k].atlas_id.id() >= n);
                    assert(first_unknown_atlas(groups@, n as nat, e));
                }
                return Err(e);
            }
            commands.push(
                DrawCommand::Overlay {
                    atlas_id: group.atlas_id,
                    group: i,
                    instance_count: group.sprites.len(),
                },
            );
            proof {
                let next = groups@.take(i + 1);
                assert(next.take(i as int) =~= groups@.take(i as int));
                assert forall|j: int| 0 <= j < next.len() implies (#[trigger] next[j]).atlas_id.id()
                    < n by {
                    if j < i {
                        assert(next[j] == groups@.take(i as int)[j]);
                    }
                }
                assert(commands@ =~= overlay_pass(next));
            }
            i += 1;
        }
        assert(groups@.take(i as int) =~= groups@);
        Ok(commands)
    }
}

} // verus!
