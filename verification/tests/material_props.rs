use sceneview::bits::{V3, NEG_ONE_BITS, ONE_BITS, ZERO_BITS};
use sceneview::material::{applied_mask, bind_material, texture_mask, MaterialRecord};

fn v3(x: f32, y: f32, z: f32) -> V3 {
    V3 { x: x.to_bits(), y: y.to_bits(), z: z.to_bits() }
}

fn empty_record() -> MaterialRecord {
    MaterialRecord {
        name: String::from("plain"),
        ambient: None,
        diffuse: None,
        specular: None,
        shininess: None,
        color_texture: None,
        normal_texture: None,
    }
}

#[test]
fn all_absent_record_encodes_negative_signs_and_zero_mask() {
    let record = empty_record();
    let block = record.bind();
    assert_eq!(block.ambient.w, NEG_ONE_BITS);
    assert_eq!(block.diffuse.w, NEG_ONE_BITS);
    assert_eq!(block.specular.w, NEG_ONE_BITS);
    assert_eq!(block.ambient.x, ZERO_BITS);
    assert_eq!(block.ambient.y, ZERO_BITS);
    assert_eq!(block.ambient.z, ZERO_BITS);
    // Absent shininess defaults to 1.0.
    assert_eq!(block.shininess, ONE_BITS);
    assert_eq!(f32::from_bits(block.ambient.w), -1.0);
    let mask = texture_mask(record.color_texture.is_some(), record.normal_texture.is_some());
    assert_eq!(mask, 0);
}

#[test]
fn fully_populated_record_encodes_positive_signs_and_values() {
    let record = MaterialRecord {
        name: String::from("gold"),
        ambient: Some(v3(0.1, 0.2, 0.3)),
        diffuse: Some(v3(0.4, 0.5, 0.6)),
        specular: Some(v3(0.7, 0.8, 0.9)),
        shininess: Some(32.5f32.to_bits()),
        color_texture: Some(image::DynamicImage::new_rgb8(1, 1)),
        normal_texture: Some(image::DynamicImage::new_rgb8(1, 1)),
    };
    let block = record.bind();
    assert_eq!(block.ambient.w, ONE_BITS);
    assert_eq!(block.diffuse.w, ONE_BITS);
    assert_eq!(block.specular.w, ONE_BITS);
    assert_eq!(f32::from_bits(block.ambient.w), 1.0);
    assert_eq!(block.ambient.x, 0.1f32.to_bits());
    assert_eq!(block.diffuse.y, 0.5f32.to_bits());
    assert_eq!(block.specular.z, 0.9f32.to_bits());
    // Shininess passes through as the literal input value.
    assert_eq!(f32::from_bits(block.shininess), 32.5);
    let mask = texture_mask(record.color_texture.is_some(), record.normal_texture.is_some());
    assert_eq!(mask, 3);
}

#[test]
fn missing_material_encodes_like_all_absent() {
    let block = bind_material(&None);
    let absent = empty_record().bind();
    assert_eq!(block, absent);
}

#[test]
fn texture_mask_bit_assignment() {
    assert_eq!(texture_mask(false, false), 0);
    assert_eq!(texture_mask(true, false), 1);
    assert_eq!(texture_mask(false, true), 2);
    assert_eq!(texture_mask(true, true), 3);
}

#[test]
fn normal_map_toggle_gates_only_the_normal_bit() {
    assert_eq!(applied_mask(3, true), 3);
    assert_eq!(applied_mask(3, false), 1);
    assert_eq!(applied_mask(1, false), 1);
    assert_eq!(applied_mask(1, true), 1);
    assert_eq!(applied_mask(2, false), 0);
    assert_eq!(applied_mask(2, true), 2);
}
