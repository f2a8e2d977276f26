use glace::draw::DrawCall;
use glace::light::Light;
use glace::model::{Material, Model, ModelMesh, Transform};
use glace::passes::{
    color_attachment, frame_passes, BlendMode, ColorAttachment, ColorTarget, DepthMode, FillMode, LoadOp,
    PassKind,
};
use glace::scene::Scene;

fn at_origin() -> Transform {
    Transform {
        translation: [0f32.to_bits(); 3],
        rotation: [0f32.to_bits(), 0f32.to_bits(), 0f32.to_bits(), 1f32.to_bits()],
        scale: [1f32.to_bits(); 3],
    }
}

fn two_material_model() -> Model {
    let mut opaque = Material::default();
    opaque.alpha = 1.0f32.to_bits();
    let mut glass = Material::default();
    glass.alpha = 0.5f32.to_bits();
    Model {
        meshes: vec![
            ModelMesh { name: "body".to_string(), num_elements: 36, material_id: Some(0) },
            ModelMesh { name: "window".to_string(), num_elements: 6, material_id: Some(1) },
        ],
        materials: vec![opaque, glass],
    }
}

fn synced_scene() -> (Scene, usize) {
    let mut scene = Scene::new();
    let e = scene.spawn();
    scene.set_model(e, two_material_model());
    scene.set_transform(e, at_origin());
    scene.sync();
    (scene, e)
}

#[test]
fn opaque_and_translucent_meshes_go_to_their_own_pass() {
    let (scene, e) = synced_scene();
    let opaque = scene.plan_draws(PassKind::Opaque);
    let transparent = scene.plan_draws(PassKind::Transparent);
    assert_eq!(
        opaque,
        vec![DrawCall { entity: e, mesh: 0, material: Some(0), index_count: 36, instances: 1 }]
    );
    assert_eq!(
        transparent,
        vec![DrawCall { entity: e, mesh: 1, material: Some(1), index_count: 6, instances: 1 }]
    );
}

#[test]
fn transparent_marker_excludes_from_material_passes() {
    let (mut scene, e) = synced_scene();
    scene.set_transparent(e, true);
    assert!(scene.plan_draws(PassKind::Opaque).is_empty());
    assert!(scene.plan_draws(PassKind::Transparent).is_empty());
}

#[test]
fn unsynced_entity_is_not_drawn() {
    let mut scene = Scene::new();
    let e = scene.spawn();
    scene.set_model(e, two_material_model());
    scene.set_transform(e, at_origin());
    assert!(scene.plan_draws(PassKind::Opaque).is_empty());
}

#[test]
fn light_models_drawn_once_in_light_pass_only() {
    let (mut scene, e) = synced_scene();
    let white = 1f32.to_bits();
    scene.set_light(e, Some(Light { position: [0, 0, 0], color: [white, white, white] }));
    assert!(scene.plan_draws(PassKind::Opaque).is_empty());
    let lights = scene.plan_draws(PassKind::Light);
    assert_eq!(lights.len(), 2);
    assert!(lights.iter().all(|d| d.instances == 1 && d.material.is_none()));
}

#[test]
fn wireframe_draws_every_mesh_of_marked_entities() {
    let (mut scene, e) = synced_scene();
    assert!(scene.plan_draws(PassKind::Wireframe).is_empty());
    scene.set_wireframe(e, true);
    let w = scene.plan_draws(PassKind::Wireframe);
    assert_eq!(w.len(), 2);
    assert_eq!(w[1], DrawCall { entity: e, mesh: 1, material: None, index_count: 6, instances: 1 });
}

#[test]
fn mesh_without_material_index_uses_first_material() {
    let mut scene = Scene::new();
    let e = scene.spawn();
    let mut m = two_material_model();
    m.meshes[1].material_id = None;
    scene.set_model(e, m);
    scene.set_transform(e, at_origin());
    scene.sync();
    assert_eq!(scene.plan_draws(PassKind::Opaque).len(), 2);
    assert!(scene.plan_draws(PassKind::Transparent).is_empty());
}

#[test]
fn pass_order_and_load_ops() {
    let passes = frame_passes(false);
    assert_eq!(
        passes,
        vec![PassKind::Opaque, PassKind::Transparent, PassKind::Light, PassKind::Wireframe, PassKind::Ui]
    );
    assert_eq!(frame_passes(true).last(), Some(&PassKind::DepthView));
    let opaque = PassKind::Opaque.config();
    assert_eq!(opaque.color_load, LoadOp::Clear);
    assert_eq!(opaque.depth_load, Some(LoadOp::Clear));
    assert_eq!(opaque.depth, DepthMode::TestWrite);
    assert_eq!(opaque.blend, BlendMode::Replace);
    let transparent = PassKind::Transparent.config();
    assert_eq!(transparent.color_load, LoadOp::Load);
    assert_eq!(transparent.depth, DepthMode::TestOnly);
    assert_eq!(transparent.blend, BlendMode::Alpha);
    assert_eq!(PassKind::Wireframe.config().fill, FillMode::Line);
    assert_eq!(PassKind::Ui.config().depth_load, None);
    for p in passes.iter().skip(1) {
        assert_eq!(p.config().color_load, LoadOp::Load);
    }
}

#[test]
fn multisampling_resolves_into_surface() {
    assert_eq!(
        color_attachment(4),
        ColorAttachment { view: ColorTarget::Multisampled, resolve_target: Some(ColorTarget::Swapchain) }
    );
    assert_eq!(color_attachment(1), ColorAttachment { view: ColorTarget::Swapchain, resolve_target: None });
}

#[test]
fn instanced_entity_draws_every_instance() {
    let mut scene = Scene::new();
    let e = scene.spawn();
    scene.set_model(e, two_material_model());
    scene.set_instances(e, glace::model::Instances(vec![at_origin(); 5]));
    scene.sync();
    let opaque = scene.plan_draws(PassKind::Opaque);
    assert_eq!(opaque.len(), 1);
    assert_eq!(opaque[0].instances, 5);
    assert_eq!(scene.plan_draws(PassKind::Transparent)[0].instances, 5);
}
