use render_core::color::normalize;
use render_core::error::{AcquireError, RenderError};
use render_core::frame::{
    FrameAction, FramePhase, FrameRenderer, InputEvent, ToggleConfig, ToggleTarget,
};
use render_core::geometry::{GeometrySet, GeometryStore};
use render_core::instance::{identity_rotation, Instance, InstanceStore};
use render_core::layout::vertex_layout;
use render_core::mesh::{cube, pentagon};
use render_core::pipeline::{PipelineRegistry, PipelineVariant};
use render_core::surface::{PresentMode, SurfaceConfig, SurfaceFormat};

fn variant(id: &str) -> PipelineVariant {
    PipelineVariant {
        id: id.to_string(),
        vertex_entry: "vs_main".to_string(),
        fragment_entry: "fs_main".to_string(),
        layouts: vec![vertex_layout()],
    }
}

fn renderer(target: ToggleTarget, instancing: bool) -> FrameRenderer {
    let (pv, pi) = pentagon();
    let mut geometry = GeometryStore::new(GeometrySet {
        name: "default".to_string(),
        vertices: pv,
        indices: pi,
    });
    let (cv, ci) = cube();
    geometry.replace("cube".to_string(), cv, ci).unwrap();

    let mut pipelines = PipelineRegistry::new(variant("flat"));
    pipelines.register(variant("vertex-colored"));

    let mut instances = InstanceStore::new();
    if instancing {
        instances.set_instances(vec![
            Instance::new([0, 0, 0], identity_rotation()),
            Instance::new([2_000_000, 0, 0], identity_rotation()),
            Instance::new([0, 2_000_000, 0], identity_rotation()),
        ]);
    }

    let (primary, alternate) = match target {
        ToggleTarget::Pipeline => ("flat", "vertex-colored"),
        ToggleTarget::Geometry => ("default", "cube"),
    };
    FrameRenderer::new(
        SurfaceConfig::new(800, 600, SurfaceFormat::Bgra8UnormSrgb, PresentMode::Fifo),
        geometry,
        pipelines,
        instances,
        ToggleConfig {
            target,
            primary: primary.to_string(),
            alternate: alternate.to_string(),
        },
        instancing,
    )
}

#[test]
fn successful_tick_draws_the_current_state() {
    let mut r = renderer(ToggleTarget::Geometry, true);
    r.input(&InputEvent::PointerMoved { x: 200, y: 600 }).unwrap();
    let action = r.tick(Ok(()));
    match action {
        FrameAction::Draw(plan) => {
            assert_eq!(plan.pipeline, 0);
            assert_eq!(plan.geometry, 0);
            assert!(plan.indexed);
            assert_eq!(plan.index_count, 9);
            assert_eq!(plan.vertex_count, 5);
            assert!(plan.bind_instances);
            assert_eq!(plan.instance_count, 3);
            assert_eq!(plan.clear.b, normalize(200, 800));
            assert_eq!(plan.clear.r, normalize(600, 600));
        }
        other => panic!("expected a draw, got {:?}", other),
    }
    assert_eq!(r.phase, FramePhase::Idle);
}

#[test]
fn an_empty_instance_list_yields_zero_instanced_draws() {
    let mut r = renderer(ToggleTarget::Geometry, true);
    r.instances.set_instances(Vec::new());
    match r.tick(Ok(())) {
        FrameAction::Draw(plan) => {
            assert!(plan.bind_instances);
            assert_eq!(plan.instance_count, 0);
        }
        other => panic!("expected a draw, got {:?}", other),
    }
}

#[test]
fn without_instancing_one_instance_is_drawn() {
    let mut r = renderer(ToggleTarget::Pipeline, false);
    match r.tick(Ok(())) {
        FrameAction::Draw(plan) => {
            assert!(!plan.bind_instances);
            assert_eq!(plan.instance_count, 1);
        }
        other => panic!("expected a draw, got {:?}", other),
    }
}

#[test]
fn lost_surface_reconfigures_then_returns_to_idle() {
    let mut r = renderer(ToggleTarget::Geometry, false);
    let action = r.tick(Err(AcquireError::Lost));
    assert_eq!(action, FrameAction::Reconfigure);
    assert_eq!(r.phase, FramePhase::Resizing);

    let changed = r.resize(800, 600);
    assert!(changed);
    assert_eq!(r.phase, FramePhase::Idle);
}

#[test]
fn out_of_memory_is_fatal() {
    let mut r = renderer(ToggleTarget::Geometry, false);
    let action = r.tick(Err(AcquireError::OutOfMemory));
    assert_eq!(action, FrameAction::Terminate);
    assert_eq!(r.phase, FramePhase::Fatal);
}

#[test]
fn other_acquire_failures_skip_one_frame_unchanged() {
    let mut r = renderer(ToggleTarget::Geometry, false);
    let before_geometry = r.geometry.active;
    let before_pipeline = r.pipelines.active;
    let action = r.tick(Err(AcquireError::Other));
    assert_eq!(action, FrameAction::Skip);
    assert_eq!(r.phase, FramePhase::Idle);
    assert_eq!(r.geometry.active, before_geometry);
    assert_eq!(r.pipelines.active, before_pipeline);
}

#[test]
fn pointer_moves_feed_the_next_clear_color() {
    let mut r = renderer(ToggleTarget::Geometry, false);
    r.input(&InputEvent::PointerMoved { x: -50, y: 9000 }).unwrap();
    match r.tick(Ok(())) {
        FrameAction::Draw(plan) => {
            assert_eq!(plan.clear.b.num, 0);
            assert_eq!(plan.clear.r.num, plan.clear.r.den);
        }
        other => panic!("expected a draw, got {:?}", other),
    }
}

#[test]
fn toggle_key_swaps_the_geometry_set_and_back() {
    let mut r = renderer(ToggleTarget::Geometry, false);
    assert_eq!(r.geometry.current().name, "default");
    r.input(&InputEvent::TogglePressed).unwrap();
    assert_eq!(r.geometry.current().name, "cube");
    assert_eq!(r.pipelines.current().id, "flat");
    r.input(&InputEvent::TogglePressed).unwrap();
    assert_eq!(r.geometry.current().name, "default");
}

#[test]
fn toggle_key_swaps_the_pipeline_variant_and_back() {
    let mut r = renderer(ToggleTarget::Pipeline, false);
    assert_eq!(r.pipelines.current().id, "flat");
    r.input(&InputEvent::TogglePressed).unwrap();
    assert_eq!(r.pipelines.current().id, "vertex-colored");
    assert_eq!(r.geometry.current().name, "default");
    r.input(&InputEvent::TogglePressed).unwrap();
    assert_eq!(r.pipelines.current().id, "flat");
}

#[test]
fn toggle_to_an_unregistered_identifier_is_signalled() {
    let mut r = renderer(ToggleTarget::Geometry, false);
    r.toggle.alternate = "missing".to_string();
    let err = r.input(&InputEvent::TogglePressed).unwrap_err();
    assert_eq!(err, RenderError::UnknownGeometry);
    assert_eq!(r.geometry.current().name, "default");

    let mut r = renderer(ToggleTarget::Pipeline, false);
    r.toggle.alternate = "missing".to_string();
    let err = r.input(&InputEvent::TogglePressed).unwrap_err();
    assert_eq!(err, RenderError::UnknownPipeline);
    assert_eq!(r.pipelines.current().id, "flat");
}

#[test]
fn geometry_replaced_between_frames_is_drawn_on_the_next_tick() {
    let mut r = renderer(ToggleTarget::Geometry, false);
    let (pv, pi) = pentagon();
    r.replace_geometry("default".to_string(), pv, pi).unwrap();
    assert_eq!(r.geometry.current().index_count(), 9);
    match r.tick(Ok(())) {
        FrameAction::Draw(plan) => {
            assert_eq!(plan.index_count, 9);
            assert_eq!(plan.vertex_count, 5);
        }
        other => panic!("expected a draw, got {:?}", other),
    }
}

#[test]
fn ignored_events_change_nothing() {
    let mut r = renderer(ToggleTarget::Geometry, false);
    r.input(&InputEvent::Ignored).unwrap();
    assert_eq!(r.geometry.active, 0);
    assert_eq!(r.pipelines.active, 0);
    assert!(r.pointer.is_none());
}

#[test]
fn window_resize_updates_the_normalization_basis() {
    let mut r = renderer(ToggleTarget::Geometry, false);
    assert!(r.resize(400, 300));
    r.input(&InputEvent::PointerMoved { x: 100, y: 300 }).unwrap();
    match r.tick(Ok(())) {
        FrameAction::Draw(plan) => {
            assert_eq!(plan.clear.b, normalize(100, 400));
            assert_eq!(plan.clear.r, normalize(300, 300));
        }
        other => panic!("expected a draw, got {:?}", other),
    }
}
