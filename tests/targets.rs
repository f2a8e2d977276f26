use glace::camera::Projection;
use glace::pipeline::{PipelineCache, PipelineSlot};
use glace::passes::PassKind;
use glace::surface::{choose_surface_format, MultisampleTarget, RenderTargets, ResizeOutcome};
use glace::ui::flip_cursor_y;

#[test]
fn resize_moves_every_target_together() {
    let mut t = RenderTargets::new(800, 600, 1);
    assert!(t.take_camera_change());
    assert_eq!(t.resize(1920, 1080), ResizeOutcome::Applied);
    assert_eq!((t.surface_width, t.surface_height), (1920, 1080));
    assert_eq!((t.depth_width, t.depth_height), (1920, 1080));
    assert_eq!(t.projection, Projection { aspect_width: 1920, aspect_height: 1080 });
    assert_eq!((t.ui_width, t.ui_height), (1920, 1080));
    assert!(t.take_camera_change());
    assert!(!t.take_camera_change());
    let aspect = t.projection.aspect_width as f32 / t.projection.aspect_height as f32;
    assert!((aspect - 16.0 / 9.0).abs() < 1e-6);
}

#[test]
fn minimized_window_keeps_configuration() {
    let mut t = RenderTargets::new(800, 600, 4);
    let before = t;
    assert_eq!(t.resize(0, 600), ResizeOutcome::Skipped);
    assert_eq!(t.resize(800, 0), ResizeOutcome::Skipped);
    assert_eq!(t, before);
}

#[test]
fn multisampled_target_follows_size_and_count() {
    let mut t = RenderTargets::new(640, 480, 4);
    assert_eq!(t.msaa_target, Some(MultisampleTarget { width: 640, height: 480, samples: 4 }));
    t.resize(1024, 768);
    assert_eq!(t.msaa_target, Some(MultisampleTarget { width: 1024, height: 768, samples: 4 }));
    assert_eq!(t.depth_samples, 4);
    assert!(t.set_sample_count(1));
    assert_eq!(t.msaa_target, None);
    assert_eq!(t.depth_samples, 1);
    assert!(!t.set_sample_count(1));
    assert!(!t.set_sample_count(0));
}

#[test]
fn surface_format_prefers_srgb() {
    assert_eq!(choose_surface_format(&vec![false, true, true]), Some(1));
    assert_eq!(choose_surface_format(&vec![false, false]), Some(0));
    assert_eq!(choose_surface_format(&vec![]), None);
}

#[test]
fn pipelines_are_built_once_per_key() {
    let mut cache = PipelineCache::new(1);
    let a = cache.pipeline_for(PassKind::Opaque);
    assert_eq!(a, PipelineSlot { index: 0, build: true });
    let b = cache.pipeline_for(PassKind::Transparent);
    assert_eq!(b, PipelineSlot { index: 1, build: true });
    assert_eq!(cache.pipeline_for(PassKind::Opaque), PipelineSlot { index: 0, build: false });
    assert!(cache.set_sample_count(4));
    assert!(cache.keys.is_empty());
    assert_eq!(cache.pipeline_for(PassKind::Opaque), PipelineSlot { index: 0, build: true });
    assert_eq!(cache.keys[0].sample_count, 4);
    assert!(!cache.set_sample_count(4));
}

#[test]
fn cursor_rows_count_from_bottom() {
    assert_eq!(flip_cursor_y(100, 600), 500);
    assert_eq!(flip_cursor_y(0, 600), 600);
    assert_eq!(flip_cursor_y(700, 600), 0);
}
