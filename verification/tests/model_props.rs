use sceneview::bits::{V2, V3, ZERO_BITS};
use sceneview::light::{centroid, select_light};
use sceneview::material::MaterialRecord;
use sceneview::model::Model;

fn v3(x: f32, y: f32, z: f32) -> V3 {
    V3 { x: x.to_bits(), y: y.to_bits(), z: z.to_bits() }
}

fn record_named(name: &str) -> MaterialRecord {
    MaterialRecord {
        name: String::from(name),
        ambient: None,
        diffuse: None,
        specular: None,
        shininess: None,
        color_texture: None,
        normal_texture: None,
    }
}

fn tri_model(name: &str, positions: Vec<V3>, indices: Vec<u32>, material: Option<MaterialRecord>) -> Model {
    Model::new(
        String::from(name),
        positions,
        Vec::new(),
        Vec::new(),
        Vec::new(),
        indices,
        material,
    )
    .expect("valid model")
}

#[test]
fn model_validation_accepts_well_formed_lists() {
    let m = tri_model("tri", vec![v3(0.0, 0.0, 0.0), v3(1.0, 0.0, 0.0), v3(0.0, 1.0, 0.0)], vec![0, 1, 2], None);
    assert_eq!(m.positions.len(), 3);
    assert_eq!(m.vertex_count(), 3);
}

#[test]
fn model_validation_rejects_out_of_bounds_index() {
    let r = Model::new(
        String::from("bad"),
        vec![v3(0.0, 0.0, 0.0)],
        Vec::new(),
        Vec::new(),
        Vec::new(),
        vec![0, 0, 5],
        None,
    );
    assert!(r.is_none());
}

#[test]
fn model_validation_rejects_partial_triangle() {
    let r = Model::new(
        String::from("bad"),
        vec![v3(0.0, 0.0, 0.0)],
        Vec::new(),
        Vec::new(),
        Vec::new(),
        vec![0, 0],
        None,
    );
    assert!(r.is_none());
}

#[test]
fn model_validation_rejects_mismatched_attribute_length() {
    let r = Model::new(
        String::from("bad"),
        vec![v3(0.0, 0.0, 0.0), v3(1.0, 0.0, 0.0)],
        vec![v3(1.0, 1.0, 1.0)],
        Vec::new(),
        Vec::new(),
        Vec::new(),
        None,
    );
    assert!(r.is_none());
}

#[test]
fn exposed_indices_reverse_each_triangle() {
    let m = tri_model(
        "two",
        vec![
            v3(0.0, 0.0, 0.0),
            v3(1.0, 0.0, 0.0),
            v3(0.0, 1.0, 0.0),
            v3(0.0, 0.0, 1.0),
            v3(1.0, 1.0, 0.0),
            v3(1.0, 0.0, 1.0),
        ],
        vec![0, 1, 2, 3, 4, 5],
        None,
    );
    assert_eq!(m.indices(), vec![2, 1, 0, 5, 4, 3]);
}

#[test]
fn centroid_is_the_arithmetic_mean() {
    let positions = vec![v3(1.0, 2.0, 3.0), v3(3.0, 4.0, 5.0)];
    let c = centroid(&positions);
    assert_eq!(c, v3(2.0, 3.0, 4.0));
}

#[test]
fn centroid_of_empty_list_is_zero() {
    let c = centroid(&Vec::new());
    assert_eq!(c, V3 { x: ZERO_BITS, y: ZERO_BITS, z: ZERO_BITS });
}

#[test]
fn light_selection_takes_first_matching_submesh_only() {
    // Two sub-meshes match the light predicate; the light is the centroid
    // of the first in model order only, not an average across both.
    let plain = tri_model(
        "walls",
        vec![v3(9.0, 9.0, 9.0), v3(9.0, 8.0, 9.0), v3(8.0, 9.0, 9.0)],
        vec![0, 1, 2],
        Some(record_named("Stone")),
    );
    let first_light = tri_model(
        "lamp_a",
        vec![v3(1.0, 2.0, 3.0), v3(3.0, 4.0, 5.0), v3(2.0, 3.0, 4.0)],
        vec![0, 1, 2],
        Some(record_named("Light")),
    );
    let second_light = tri_model(
        "lamp_b",
        vec![v3(100.0, 100.0, 100.0), v3(102.0, 102.0, 102.0), v3(104.0, 104.0, 104.0)],
        vec![0, 1, 2],
        Some(record_named("Light")),
    );
    let models = vec![plain, first_light, second_light];
    let light = select_light(&models, &String::from("Light")).expect("a light candidate exists");
    assert_eq!(light, v3(2.0, 3.0, 4.0));
}

#[test]
fn light_selection_without_candidates_is_none() {
    let plain = tri_model(
        "walls",
        vec![v3(0.0, 0.0, 0.0), v3(1.0, 0.0, 0.0), v3(0.0, 1.0, 0.0)],
        vec![0, 1, 2],
        Some(record_named("Stone")),
    );
    let unnamed = tri_model(
        "floor",
        vec![v3(0.0, 0.0, 0.0), v3(1.0, 0.0, 0.0), v3(0.0, 1.0, 0.0)],
        vec![0, 1, 2],
        None,
    );
    let models = vec![plain, unnamed];
    assert!(select_light(&models, &String::from("Light")).is_none());
}
