use glace::depth::{resolve_pixel, Fragment, DEPTH_FAR};
use glace::layout::{TransformRaw, Vertex, VertexAttribute};
use glace::light::{Light, LightUniform};
use glace::model::{materials_or_default, Material};
use glace::passes::DepthMode;
use glace::scene::Scene;
use glace::shapes::{cylinder_indices, plane_indices, FullscreenQuad, Quad};
use glace::texture::{Texture, TextureError};

#[test]
fn nearer_triangle_wins_in_either_order() {
    let near = Fragment { depth: DEPTH_FAR / 4, color: 0xff0000 };
    let far = Fragment { depth: DEPTH_FAR / 2, color: 0x00ff00 };
    let a = resolve_pixel(0x000000, DepthMode::TestWrite, &vec![far, near]);
    let b = resolve_pixel(0x000000, DepthMode::TestWrite, &vec![near, far]);
    assert_eq!(a.color, 0xff0000);
    assert_eq!(b.color, 0xff0000);
    assert_eq!(a.depth, DEPTH_FAR / 4);
    let c = resolve_pixel(0x123456, DepthMode::TestWrite, &vec![]);
    assert_eq!(c.color, 0x123456);
}

#[test]
fn test_only_depth_keeps_stored_depth() {
    let f = Fragment { depth: 10, color: 7 };
    let p = resolve_pixel(0, DepthMode::TestOnly, &vec![f]);
    assert_eq!(p.color, 7);
    assert_eq!(p.depth, DEPTH_FAR);
}

#[test]
fn vertex_layouts() {
    let v = Vertex::layout();
    assert_eq!(v.stride, 56);
    assert!(!v.per_instance);
    assert_eq!(v.attributes[2], VertexAttribute { location: 2, offset: 24, components: 2 });
    let t = TransformRaw::layout();
    assert_eq!(t.stride, 164);
    assert!(t.per_instance);
    assert_eq!(t.attributes.len(), 11);
    assert_eq!(t.attributes[0], VertexAttribute { location: 5, offset: 0, components: 4 });
    assert_eq!(t.attributes[4], VertexAttribute { location: 9, offset: 64, components: 3 });
    assert_eq!(t.attributes[10], VertexAttribute { location: 15, offset: 148, components: 4 });
}

#[test]
fn quads() {
    let q = Quad.mesh();
    assert_eq!(q.indices, vec![0, 1, 3, 2, 3, 1]);
    assert_eq!(q.vertices[2].position, [1, 1, 0]);
    assert_eq!(q.vertices[3].uv, [0, 1]);
    let f = FullscreenQuad.mesh();
    assert_eq!(f.indices, vec![0, 1, 2, 0, 2, 3]);
    assert_eq!(f.vertices[0].position, [-1, -1, 0]);
    assert_eq!(f.vertices[0].uv, [0, 1]);
}

#[test]
fn solid_color_texture() {
    let t = Texture::solid_color([10, 20, 30]);
    assert_eq!((t.width, t.height), (1, 1));
    assert_eq!(t.pixels, vec![10, 20, 30, 255]);
    assert_eq!(Texture::default_white().pixels, vec![255, 255, 255, 255]);
    assert_eq!(t.bytes_per_row(), Some(4));
}

#[test]
fn decodes_png_bytes() {
    let img = image::RgbaImage::from_fn(2, 1, |x, _| image::Rgba([x as u8 * 100, 1, 2, 3]));
    let mut bytes: Vec<u8> = Vec::new();
    img.write_to(&mut std::io::Cursor::new(&mut bytes), image::ImageOutputFormat::Png).unwrap();
    let t = Texture::from_bytes(&bytes).unwrap();
    assert_eq!((t.width, t.height), (2, 1));
    assert_eq!(t.pixels, vec![0, 1, 2, 3, 100, 1, 2, 3]);
}

#[test]
fn garbage_bytes_do_not_decode() {
    assert_eq!(Texture::from_bytes(&[1, 2, 3, 4]).err(), Some(TextureError::Decode));
}

#[test]
fn pixel_buffer_must_match_size() {
    assert_eq!(Texture::from_rgba(2, 2, vec![0; 15]).err(), Some(TextureError::SizeMismatch));
    let t = Texture::from_rgba(2, 2, vec![9; 16]).unwrap();
    assert_eq!(t.width, 2);
}

#[test]
fn model_without_materials_gets_default() {
    let m = materials_or_default(vec![]);
    assert_eq!(m.len(), 1);
    assert_eq!(m[0].name, "Default Material");
    assert_eq!(m[0].alpha, 1.0f32.to_bits());
    let mut own = Material::default();
    own.name = "brick".to_string();
    let kept = materials_or_default(vec![own]);
    assert_eq!(kept[0].name, "brick");
}

#[test]
fn alpha_classification() {
    let mut m = Material::default();
    assert!(m.is_opaque() && !m.is_translucent());
    m.alpha = 0.5f32.to_bits();
    assert!(!m.is_opaque() && m.is_translucent());
    m.alpha = (-0.0f32).to_bits();
    assert!(m.is_translucent());
    m.alpha = f32::NAN.to_bits();
    assert!(!m.is_opaque() && !m.is_translucent());
    m.alpha = 1.5f32.to_bits();
    assert!(!m.is_opaque() && !m.is_translucent());
}

#[test]
fn first_light_feeds_uniform() {
    let mut scene = Scene::new();
    let a = scene.spawn();
    let b = scene.spawn();
    assert!(scene.light_uniform().is_none());
    scene.set_light(b, Some(Light { position: [1, 2, 3], color: [4, 5, 6] }));
    scene.set_light(a, None);
    let u = scene.light_uniform().unwrap();
    assert_eq!(u.words, [1, 2, 3, 0, 4, 5, 6, 0]);
    let direct = LightUniform::new([7, 8, 9], [1, 1, 1]);
    assert_eq!(direct.words, [7, 8, 9, 0, 1, 1, 1, 0]);
}

#[test]
fn plane_grid_indices() {
    assert!(plane_indices(0).is_empty());
    assert_eq!(plane_indices(1), vec![0, 2, 1, 1, 2, 3]);
    assert_eq!(
        plane_indices(2),
        vec![0, 3, 1, 1, 3, 4, 1, 4, 2, 2, 4, 5, 3, 6, 4, 4, 6, 7, 4, 7, 5, 5, 7, 8]
    );
    let big = plane_indices(10);
    assert_eq!(big.len(), 600);
    assert!(big.iter().all(|i| *i < 121));
}

#[test]
fn cylinder_shaft_and_cap_indices() {
    let r = cylinder_indices(3, 1);
    assert_eq!(
        r,
        vec![
            0, 1, 3, 1, 4, 3, 1, 2, 4, 2, 5, 4, 2, 0, 5, 0, 3, 5, // shaft
            8, 7, 6, 9, 8, 6, 7, 9, 6, // top cap
            11, 12, 10, 12, 13, 10, 13, 11, 10, // bottom cap
        ]
    );
    let d = cylinder_indices(20, 4);
    assert_eq!(d.len(), 6 * 4 * 20 + 6 * 20);
    assert!(d.iter().all(|i| *i < 20 * 7 + 2));
}
