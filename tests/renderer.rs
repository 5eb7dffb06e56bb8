use scene_viewer::renderer::frame_packet::{FramePacket, FramePacketModel, FramePacketSprites};
use scene_viewer::renderer::{AtlasId, DrawCommand, DrawError, ModelId, Renderer};

// Resources and bindings stand in as plain labels.
type TestRenderer = Renderer<&'static str, &'static str, u32, u32>;

fn packet(
    models: Vec<(ModelId, usize)>,
    sprites: Vec<(AtlasId, usize)>,
) -> FramePacket<[u8; 2], u8, u8> {
    FramePacket {
        view: [1, 2],
        proj: [3, 4],
        models: models
            .into_iter()
            .map(|(model_id, n)| FramePacketModel { model_id, instances: vec![0; n] })
            .collect(),
        overlay_sprites: sprites
            .into_iter()
            .map(|(atlas_id, n)| FramePacketSprites { atlas_id, sprites: vec![0; n] })
            .collect(),
    }
}

/// A handle with index 2 that `other` issued; a fresh registry never did.
fn foreign_model_id() -> ModelId {
    let mut other = TestRenderer::new();
    other.upload_model("a", 0);
    other.upload_model("b", 0);
    other.upload_model("c", 0)
}

fn foreign_atlas_id() -> AtlasId {
    let mut other = TestRenderer::new();
    other.upload_atlas("a", 0);
    other.upload_atlas("b", 0)
}

#[test]
fn model_handles_count_up_from_zero() {
    let mut renderer = TestRenderer::new();
    let first = renderer.upload_model("camera", 10);
    let second = renderer.upload_model("crate", 11);
    assert_eq!(first.index(), 0);
    assert_eq!(second.index(), 1);
    assert_ne!(first, second);
    assert_eq!(renderer.model(first), Some(&"camera"));
    assert_eq!(renderer.model(second), Some(&"crate"));
    assert_eq!(renderer.model_binding(first), Some(&10));
    assert_eq!(renderer.model_binding(second), Some(&11));
}

#[test]
fn atlas_handles_are_a_separate_space() {
    let mut renderer = TestRenderer::new();
    renderer.upload_model("camera", 10);
    renderer.upload_model("crate", 11);
    let atlas = renderer.upload_atlas("ui", 20);
    assert_eq!(atlas.index(), 0);
    assert_eq!(renderer.atlas(atlas), Some(&"ui"));
    assert_eq!(renderer.atlas_binding(atlas), Some(&20));
    let next = renderer.upload_atlas("font", 21);
    assert_eq!(next.index(), 1);
}

#[test]
fn unissued_handles_look_up_nothing() {
    let mut renderer = TestRenderer::new();
    renderer.upload_model("camera", 10);
    let id = foreign_model_id();
    assert_eq!(id.index(), 2);
    assert_eq!(renderer.model(id), None);
    assert_eq!(renderer.model_binding(id), None);
    let atlas = foreign_atlas_id();
    assert_eq!(renderer.atlas(atlas), None);
    assert_eq!(renderer.atlas_binding(atlas), None);
}

#[test]
fn packet_with_unissued_model_is_refused() {
    let mut renderer = TestRenderer::new();
    let first = renderer.upload_model("camera", 10);
    let second = renderer.upload_model("crate", 11);
    assert_eq!((first.index(), second.index()), (0, 1));
    let unknown = foreign_model_id();
    let p = packet(vec![(first, 1), (unknown, 1)], vec![]);
    assert_eq!(renderer.draw_frame(&p), Err(DrawError::UnknownModel(unknown)));
}

#[test]
fn packet_with_unissued_atlas_is_refused() {
    let mut renderer = TestRenderer::new();
    let model = renderer.upload_model("camera", 10);
    let atlas = renderer.upload_atlas("ui", 20);
    let unknown = foreign_atlas_id();
    assert_eq!(unknown.index(), 1);
    let p = packet(vec![(model, 1)], vec![(atlas, 1), (unknown, 2)]);
    assert_eq!(renderer.draw_frame(&p), Err(DrawError::UnknownAtlas(unknown)));
}

#[test]
fn unknown_model_is_reported_before_unknown_atlas() {
    let mut renderer = TestRenderer::new();
    renderer.upload_model("camera", 10);
    let model = foreign_model_id();
    let atlas = foreign_atlas_id();
    let p = packet(vec![(model, 1)], vec![(atlas, 1)]);
    assert_eq!(renderer.draw_frame(&p), Err(DrawError::UnknownModel(model)));
}

#[test]
fn empty_packet_only_updates_the_uniform() {
    let renderer = TestRenderer::new();
    let p = packet(vec![], vec![]);
    assert_eq!(renderer.draw_frame(&p), Ok(vec![DrawCommand::UpdateViewProjection]));
}

#[test]
fn forward_pass_precedes_overlay_pass() {
    let mut renderer = TestRenderer::new();
    let camera = renderer.upload_model("camera", 10);
    let boxes = renderer.upload_model("box", 11);
    let ui = renderer.upload_atlas("ui", 20);
    let p = packet(vec![(boxes, 3), (camera, 1)], vec![(ui, 2), (ui, 0)]);
    assert_eq!(
        renderer.draw_frame(&p),
        Ok(vec![
            DrawCommand::UpdateViewProjection,
            DrawCommand::Forward { model_id: boxes, group: 0, instance_count: 3 },
            DrawCommand::Forward { model_id: camera, group: 1, instance_count: 1 },
            DrawCommand::Overlay { atlas_id: ui, group: 0, instance_count: 2 },
            DrawCommand::Overlay { atlas_id: ui, group: 1, instance_count: 0 },
        ])
    );
}

#[test]
fn draw_frame_leaves_state_unchanged() {
    let mut renderer = TestRenderer::new();
    let camera = renderer.upload_model("camera", 10);
    let ui = renderer.upload_atlas("ui", 20);
    let p = packet(vec![(camera, 1)], vec![(ui, 1)]);
    let first = renderer.draw_frame(&p);
    let second = renderer.draw_frame(&p);
    assert_eq!(first, second);
    assert_eq!(renderer.upload_model("next", 12).index(), 1);
}
