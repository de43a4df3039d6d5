use render_core::error::RenderError;
use render_core::geometry::{halve_positions, indices_in_bounds, GeometrySet, GeometryStore, Vertex};
use render_core::layout::{instance_layout, vertex_layout, AttributeFormat, StepMode};
use render_core::mesh::{cube, pentagon};
use render_core::pipeline::{PipelineRegistry, PipelineVariant};

fn store_with_pentagon_and_cube() -> GeometryStore {
    let (pv, pi) = pentagon();
    let mut store = GeometryStore::new(GeometrySet {
        name: "default".to_string(),
        vertices: pv,
        indices: pi,
    });
    let (cv, ci) = cube();
    store
        .replace("cube".to_string(), halve_positions(&cv), ci)
        .unwrap();
    store
}

fn variant(id: &str) -> PipelineVariant {
    PipelineVariant {
        id: id.to_string(),
        vertex_entry: "vs_main".to_string(),
        fragment_entry: "fs_main".to_string(),
        layouts: vec![vertex_layout()],
    }
}

#[test]
fn toggling_geometry_twice_restores_the_active_identifier() {
    let mut store = store_with_pentagon_and_cube();
    let primary = "default".to_string();
    let alternate = "cube".to_string();
    let original = store.current().name.clone();

    store.toggle(&primary, &alternate).unwrap();
    assert_eq!(store.current().name, "cube");
    store.toggle(&primary, &alternate).unwrap();
    assert_eq!(store.current().name, original);
}

#[test]
fn replacing_default_with_pentagon_reports_nine_indices() {
    let (cv, ci) = cube();
    let mut store = GeometryStore::new(GeometrySet {
        name: "default".to_string(),
        vertices: cv,
        indices: ci,
    });
    let (pv, pi) = pentagon();
    assert_eq!(pv.len(), 5);
    assert_eq!(pi.len(), 9);
    store.replace("default".to_string(), pv, pi).unwrap();
    assert_eq!(store.current().index_count(), 9);
    assert_eq!(store.current().vertex_count(), 5);
}

#[test]
fn replace_under_a_new_name_registers_a_new_set() {
    let mut store = store_with_pentagon_and_cube();
    let (pv, pi) = pentagon();
    store.replace("extra".to_string(), pv, pi).unwrap();
    assert_eq!(store.current().name, "default");
    store.set_active(&"extra".to_string()).unwrap();
    assert_eq!(store.current().name, "extra");
}

#[test]
fn selecting_unknown_geometry_fails_and_changes_nothing() {
    let mut store = store_with_pentagon_and_cube();
    let before = store.current().name.clone();
    let err = store.set_active(&"missing".to_string()).unwrap_err();
    assert_eq!(err, RenderError::UnknownGeometry);
    assert_eq!(store.current().name, before);
}

#[test]
fn index_bounds_check_accepts_and_rejects() {
    let good: Vec<u16> = vec![0, 1, 2];
    assert!(indices_in_bounds(&good, 3));
    let bad: Vec<u16> = vec![0, 3, 2];
    assert!(!indices_in_bounds(&bad, 3));
    let empty: Vec<u16> = vec![];
    assert!(indices_in_bounds(&empty, 0));
}

#[test]
fn halving_positions_truncates_toward_zero_and_keeps_colors() {
    let v = vec![
        Vertex { position: [1_000_000, -1_000_000, 5], color: [7, 8, 9] },
        Vertex { position: [-5, 3, 0], color: [1, 2, 3] },
    ];
    let halved = halve_positions(&v);
    assert_eq!(halved.len(), 2);
    assert_eq!(halved[0].position, [500_000, -500_000, 2]);
    assert_eq!(halved[0].color, [7, 8, 9]);
    assert_eq!(halved[1].position, [-2, 1, 0]);
    assert_eq!(halved[1].color, [1, 2, 3]);
}

#[test]
fn mesh_builders_satisfy_the_set_invariant() {
    let (pv, pi) = pentagon();
    assert!(indices_in_bounds(&pi, pv.len()));
    let (cv, ci) = cube();
    assert_eq!(cv.len(), 24);
    assert_eq!(ci.len(), 36);
    assert!(indices_in_bounds(&ci, cv.len()));
}

#[test]
fn selecting_a_variant_again_yields_the_same_handle() {
    let mut registry = PipelineRegistry::new(variant("flat"));
    registry.register(variant("vertex-colored"));

    let first = registry.select(&"flat".to_string()).unwrap();
    let second = registry.select(&"vertex-colored".to_string()).unwrap();
    let third = registry.select(&"flat".to_string()).unwrap();
    assert_eq!(first, third);
    assert_ne!(first, second);
    assert_eq!(registry.current().id, "flat");
}

#[test]
fn selecting_unknown_pipeline_fails_and_changes_nothing() {
    let mut registry = PipelineRegistry::new(variant("flat"));
    let err = registry.select(&"missing".to_string()).unwrap_err();
    assert_eq!(err, RenderError::UnknownPipeline);
    assert_eq!(registry.current().id, "flat");
}

#[test]
fn vertex_layout_packs_position_then_color() {
    let l = vertex_layout();
    assert_eq!(l.array_stride, 24);
    assert_eq!(l.step_mode, StepMode::Vertex);
    assert_eq!(l.attributes.len(), 2);
    assert_eq!(l.attributes[0].offset, 0);
    assert_eq!(l.attributes[0].shader_location, 0);
    assert_eq!(l.attributes[0].format, AttributeFormat::Float32x3);
    assert_eq!(l.attributes[1].offset, 12);
    assert_eq!(l.attributes[1].shader_location, 1);
    assert_eq!(l.attributes[1].format, AttributeFormat::Float32x3);
}

#[test]
fn instance_layout_exposes_four_matrix_columns() {
    let l = instance_layout();
    assert_eq!(l.array_stride, 64);
    assert_eq!(l.step_mode, StepMode::Instance);
    assert_eq!(l.attributes.len(), 4);
    for (i, attribute) in l.attributes.iter().enumerate() {
        assert_eq!(attribute.offset, 16 * i as u64);
        assert_eq!(attribute.shader_location, 5 + i as u32);
        assert_eq!(attribute.format, AttributeFormat::Float32x4);
    }
}

#[test]
fn layout_matching_compares_every_attribute() {
    let a = vertex_layout();
    let b = vertex_layout();
    assert!(a.matches(&b));
    let c = instance_layout();
    assert!(!a.matches(&c));
}
