//! End-to-end behavior of the pipeline over concrete scenes.

use spin_scene::metadata::MetadataError;
use spin_scene::scene::Scene;

fn meta(s: &str) -> Option<String> {
    Some(s.to_string())
}

#[test]
fn rotation_rate_exact() {
    // A blob with a finite numeric `z_rot` yields a behavior with exactly
    // that rate after one extraction pass.
    let mut scene = Scene::new();
    let a = scene.spawn(meta("{\"z_rot\": 1.5}"));
    assert!(scene.extract_metadata().is_ok());
    assert_eq!(scene.rate_bits(0), Some(1.5f64.to_bits()));
    assert!(scene.is_examined(0));
    assert_eq!(scene.node_id(0), a);
}

#[test]
fn rotation_rate_integer_coercion() {
    // An integer encoding of the rate is accepted and coerced exactly.
    let mut scene = Scene::new();
    scene.spawn(meta("{\"z_rot\": -3}"));
    scene.spawn(meta("{\"z_rot\": 0}"));
    assert!(scene.extract_metadata().is_ok());
    assert_eq!(scene.rate_bits(0), Some((-3.0f64).to_bits()));
    assert_eq!(scene.rate_bits(1), Some(0.0f64.to_bits()));
}

#[test]
fn unrecognized_key_attaches_nothing() {
    // A valid blob without `z_rot` attaches no behavior, and the node is
    // reported by the diagnostic stage on every subsequent tick until it is
    // removed.
    let mut scene = Scene::new();
    let b = scene.spawn(meta("{\"color\": \"red\"}"));
    assert!(scene.extract_metadata().is_ok());
    assert_eq!(scene.rate_bits(0), None);
    assert!(scene.is_examined(0));
    assert_eq!(scene.collect_diagnostics(), vec![b]);
    assert_eq!(scene.collect_diagnostics(), vec![b]);
    assert!(scene.despawn(b));
    assert_eq!(scene.collect_diagnostics(), Vec::<u64>::new());
}

#[test]
fn extraction_idempotent() {
    // A second extraction pass over the same nodes changes nothing: no
    // duplicate attachment, no re-examination.
    let mut scene = Scene::new();
    scene.spawn(meta("{\"z_rot\": 2.25}"));
    scene.spawn(meta("{\"color\": \"red\"}"));
    scene.spawn(None);
    assert!(scene.extract_metadata().is_ok());
    let after_once: Vec<(Option<u64>, bool)> = (0..scene.node_count())
        .map(|i| (scene.rate_bits(i), scene.is_examined(i)))
        .collect();
    assert!(scene.extract_metadata().is_ok());
    let after_twice: Vec<(Option<u64>, bool)> = (0..scene.node_count())
        .map(|i| (scene.rate_bits(i), scene.is_examined(i)))
        .collect();
    assert_eq!(after_once, after_twice);
    assert_eq!(scene.rate_bits(0), Some(2.25f64.to_bits()));
}

#[test]
fn malformed_metadata_is_fatal() {
    // Raw text that is not valid structured data fails the extraction pass
    // and attaches nothing.
    let mut scene = Scene::new();
    let bad = scene.spawn(meta("{not json"));
    let err = scene.extract_metadata().unwrap_err();
    assert_eq!(err.kind, MetadataError::MalformedMetadata);
    assert_eq!(err.node_id, bad);
    assert_eq!(err.raw, "{not json");
    assert_eq!(scene.rate_bits(0), None);
    assert!(scene.is_examined(0));
}

#[test]
fn invalid_field_value_is_fatal() {
    // A present `z_rot` that cannot be coerced to a number is an authoring
    // defect, as fatal as malformed text.
    let mut scene = Scene::new();
    let bad = scene.spawn(meta("{\"z_rot\": \"fast\"}"));
    let err = scene.extract_metadata().unwrap_err();
    assert_eq!(err.kind, MetadataError::InvalidFieldValue);
    assert_eq!(err.node_id, bad);
    assert_eq!(scene.rate_bits(0), None);
}

#[test]
fn extraction_stops_at_first_failure() {
    // Nodes before the offending one are extracted; nodes after it are left
    // untouched for the aborted pass.
    let mut scene = Scene::new();
    scene.spawn(meta("{\"z_rot\": 1.0}"));
    let bad = scene.spawn(meta("{not json"));
    scene.spawn(meta("{\"z_rot\": 2.0}"));
    let err = scene.extract_metadata().unwrap_err();
    assert_eq!(err.node_id, bad);
    assert_eq!(scene.rate_bits(0), Some(1.0f64.to_bits()));
    assert!(scene.is_examined(1));
    assert!(!scene.is_examined(2));
    assert_eq!(scene.rate_bits(2), None);
}

#[test]
fn end_to_end_three_nodes() {
    // Node A rotates, node B is flagged, node C (no metadata) is neither.
    let mut scene = Scene::new();
    let a = scene.spawn(meta("{\"z_rot\": 1.5}"));
    let b = scene.spawn(meta("{\"color\": \"red\"}"));
    let c = scene.spawn(None);
    let dt = 0.25f64.to_bits();
    let report = scene.run_tick(dt).unwrap();
    assert_eq!(scene.rate_bits(0), Some(1.5f64.to_bits()));
    assert_eq!(scene.rate_bits(1), None);
    assert_eq!(scene.rate_bits(2), None);
    assert_eq!(report.flagged, vec![b]);
    assert_eq!(report.steps.len(), 1);
    assert_eq!(report.steps[0].node_id, a);
    assert_eq!(report.steps[0].rate_bits, 1.5f64.to_bits());
    assert_eq!(report.steps[0].dt_bits, dt);
    assert!(!scene.is_examined(2));
    assert!(scene.has_metadata(1));
    assert!(!scene.has_metadata(2));
    let _ = c;
}

#[test]
fn unexamined_nodes_get_no_steps() {
    // The update stage advances only nodes that carry a behavior: before any
    // extraction nothing rotates.
    let scene = {
        let mut s = Scene::new();
        s.spawn(meta("{\"z_rot\": 4.0}"));
        s
    };
    assert!(scene.update_steps(1.0f64.to_bits()).is_empty());
}

#[test]
fn new_nodes_picked_up_next_tick() {
    // Nodes that appear between ticks are extracted by the next tick's pass;
    // already-examined nodes are not revisited.
    let mut scene = Scene::new();
    scene.spawn(meta("{\"z_rot\": 1.0}"));
    assert!(scene.run_tick(0.1f64.to_bits()).is_ok());
    let late = scene.spawn(meta("{\"z_rot\": 2.0}"));
    let report = scene.run_tick(0.1f64.to_bits()).unwrap();
    assert_eq!(report.steps.len(), 2);
    assert_eq!(report.steps[1].node_id, late);
    assert_eq!(report.steps[1].rate_bits, 2.0f64.to_bits());
}

#[test]
fn frame_rate_independence() {
    // Applying the issued steps over several ticks of varying duration
    // accumulates the same net rotation as one tick of the total duration,
    // within floating-point tolerance.
    let rate = 1.5f64;
    let durations = [0.016f64, 0.033, 0.008, 0.120, 0.048];

    let mut stepped = Scene::new();
    stepped.spawn(meta("{\"z_rot\": 1.5}"));
    let mut angle_stepped = 0.0f64;
    for dt in durations {
        let report = stepped.run_tick(dt.to_bits()).unwrap();
        for step in &report.steps {
            angle_stepped += f64::from_bits(step.rate_bits) * f64::from_bits(step.dt_bits);
        }
    }

    let mut whole = Scene::new();
    whole.spawn(meta("{\"z_rot\": 1.5}"));
    let total: f64 = durations.iter().sum();
    let report = whole.run_tick(total.to_bits()).unwrap();
    let mut angle_whole = 0.0f64;
    for step in &report.steps {
        angle_whole += f64::from_bits(step.rate_bits) * f64::from_bits(step.dt_bits);
    }

    assert!((angle_stepped - angle_whole).abs() <= 1e-12);
    assert!((angle_stepped - rate * total).abs() <= 1e-12);
}
