use glace::model::{Instances, Material, Model, ModelMesh, Transform, MATERIAL_FLAGS_NONE, USE_NORMAL_MAP};
use glace::scene::{material_bundle, BufferAction, Lifecycle, Scene, SyncOp};
use glace::texture::Texture;

fn identity_at(x: f32, y: f32, z: f32) -> Transform {
    Transform {
        translation: [x.to_bits(), y.to_bits(), z.to_bits()],
        rotation: [0f32.to_bits(), 0f32.to_bits(), 0f32.to_bits(), 1f32.to_bits()],
        scale: [1f32.to_bits(), 1f32.to_bits(), 1f32.to_bits()],
    }
}

fn material(alpha: f32, normal: bool) -> Material {
    let mut m = Material::default();
    m.alpha = alpha.to_bits();
    if normal {
        m.normal_texture = Some(Texture::solid_color([128, 128, 255]));
    }
    m
}

fn model(materials: Vec<Material>) -> Model {
    let meshes = (0..materials.len())
        .map(|i| ModelMesh { name: format!("mesh{i}"), num_elements: 3, material_id: Some(i) })
        .collect();
    Model { meshes, materials }
}

#[test]
fn transform_entity_gets_one_row_buffer() {
    let mut scene = Scene::new();
    let e = scene.spawn();
    assert!(scene.set_model(e, model(vec![material(1.0, false)])));
    assert!(scene.set_transform(e, identity_at(1.0, 2.0, 3.0)));
    let ops = scene.sync();
    assert_eq!(
        ops,
        vec![
            SyncOp::InstanceBuffer { entity: e, action: BufferAction::Create, rows: 1 },
            SyncOp::Materials { entity: e, action: BufferAction::Create, count: 1 },
        ]
    );
    assert_eq!(scene.entities[e].instance_buffer.map(|b| b.rows), Some(1));
    assert_eq!(scene.entities[e].lifecycle(), Lifecycle::GpuResourcesReady);
}

#[test]
fn instances_entity_gets_one_row_per_instance() {
    let mut scene = Scene::new();
    let e = scene.spawn();
    scene.set_model(e, model(vec![material(1.0, false)]));
    scene.set_instances(e, Instances(vec![identity_at(0.0, 0.0, 0.0); 5]));
    let ops = scene.sync();
    assert_eq!(ops[0], SyncOp::InstanceBuffer { entity: e, action: BufferAction::Create, rows: 5 });
    assert_eq!(scene.entities[e].instance_buffer.map(|b| b.rows), Some(5));
}

#[test]
fn content_change_rewrites_in_place() {
    let mut scene = Scene::new();
    let e = scene.spawn();
    scene.set_model(e, model(vec![material(1.0, false)]));
    scene.set_instances(e, Instances(vec![identity_at(0.0, 0.0, 0.0); 3]));
    scene.sync();
    scene.set_instances(e, Instances(vec![identity_at(4.0, 0.0, 0.0); 3]));
    let ops = scene.sync();
    assert_eq!(ops, vec![SyncOp::InstanceBuffer { entity: e, action: BufferAction::Write, rows: 3 }]);
    assert_eq!(scene.entities[e].instance_buffer.map(|b| b.rows), Some(3));
}

#[test]
fn instance_count_change_recreates_buffer() {
    let mut scene = Scene::new();
    let e = scene.spawn();
    scene.set_model(e, model(vec![material(1.0, false)]));
    scene.set_instances(e, Instances(vec![identity_at(0.0, 0.0, 0.0); 3]));
    scene.sync();
    scene.set_instances(e, Instances(vec![identity_at(0.0, 0.0, 0.0); 7]));
    let ops = scene.sync();
    assert_eq!(ops, vec![SyncOp::InstanceBuffer { entity: e, action: BufferAction::Recreate, rows: 7 }]);
    assert_eq!(scene.entities[e].instance_buffer.map(|b| b.rows), Some(7));
}

#[test]
fn second_sync_without_changes_is_a_no_op() {
    let mut scene = Scene::new();
    for i in 0..3 {
        let e = scene.spawn();
        scene.set_model(e, model(vec![material(1.0, i == 1), material(0.5, false)]));
        scene.set_transform(e, identity_at(i as f32, 0.0, 0.0));
    }
    let first = scene.sync();
    assert_eq!(first.len(), 6);
    let second = scene.sync();
    assert!(second.is_empty());
}

#[test]
fn entity_without_model_gets_nothing() {
    let mut scene = Scene::new();
    let e = scene.spawn();
    scene.set_transform(e, identity_at(0.0, 0.0, 0.0));
    assert!(scene.sync().is_empty());
    assert_eq!(scene.entities[e].lifecycle(), Lifecycle::Unloaded);
    assert!(scene.entities[e].instance_buffer.is_none());
}

#[test]
fn model_without_placement_is_loaded_only() {
    let mut scene = Scene::new();
    let e = scene.spawn();
    scene.set_model(e, model(vec![material(1.0, false)]));
    let ops = scene.sync();
    assert_eq!(ops, vec![SyncOp::Materials { entity: e, action: BufferAction::Create, count: 1 }]);
    assert_eq!(scene.entities[e].lifecycle(), Lifecycle::Loaded);
}

#[test]
fn unknown_entity_is_refused() {
    let mut scene = Scene::new();
    assert!(!scene.set_transform(0, identity_at(0.0, 0.0, 0.0)));
    assert!(!scene.set_model(3, model(vec![])));
    assert!(!scene.set_wireframe(1, true));
}

#[test]
fn material_without_normal_map_uses_placeholder() {
    let m = material(1.0, false);
    let b = material_bundle(&m);
    assert_eq!(b.uniform.flags & USE_NORMAL_MAP, 0);
    assert_eq!(b.uniform.flags, MATERIAL_FLAGS_NONE);
    assert!(b.normal_placeholder);
    let white = Texture::default_white();
    let bound = m.normal_texture_or(&white);
    assert_eq!((bound.width, bound.height), (1, 1));
    assert_eq!(bound.pixels, vec![255, 255, 255, 255]);
}

#[test]
fn material_with_normal_map_sets_flag() {
    let m = material(1.0, true);
    let b = material_bundle(&m);
    assert_eq!(b.uniform.flags & USE_NORMAL_MAP, USE_NORMAL_MAP);
    assert!(!b.normal_placeholder);
    let white = Texture::default_white();
    let bound = m.normal_texture_or(&white);
    assert_eq!(bound.pixels, vec![128, 128, 255, 255]);
    assert!(b.specular_placeholder);
}

#[test]
fn model_change_rewrites_materials() {
    let mut scene = Scene::new();
    let e = scene.spawn();
    scene.set_model(e, model(vec![material(1.0, false)]));
    scene.sync();
    scene.set_model(e, model(vec![material(0.25, false)]));
    let ops = scene.sync();
    assert_eq!(ops, vec![SyncOp::Materials { entity: e, action: BufferAction::Write, count: 1 }]);
    let data = &scene.entities[e].gpu_materials.as_ref().unwrap().data;
    assert_eq!(data[0].uniform.alpha, 0.25f32.to_bits());
}

#[test]
fn new_normal_map_recreates_materials() {
    let mut scene = Scene::new();
    let e = scene.spawn();
    scene.set_model(e, model(vec![material(1.0, false)]));
    scene.sync();
    scene.set_model(e, model(vec![material(1.0, true)]));
    let ops = scene.sync();
    assert_eq!(ops, vec![SyncOp::Materials { entity: e, action: BufferAction::Recreate, count: 1 }]);
    let data = &scene.entities[e].gpu_materials.as_ref().unwrap().data;
    assert_eq!(data[0].uniform.flags, USE_NORMAL_MAP);
    assert!(!data[0].normal_placeholder);
}

#[test]
fn transform_takes_precedence_over_instances() {
    let mut scene = Scene::new();
    let e = scene.spawn();
    scene.set_model(e, model(vec![material(1.0, false)]));
    scene.set_instances(e, Instances(vec![identity_at(0.0, 0.0, 0.0); 4]));
    scene.set_transform(e, identity_at(0.0, 0.0, 0.0));
    scene.sync();
    assert_eq!(scene.entities[e].instance_buffer.map(|b| b.rows), Some(1));
}
