use voxels::bytes::index_buffer_contents;
use voxels::instance::{instance_buffer_contents, instances_to_raw, Instance, InstanceRaw};
use voxels::linalg::{Mat4, Vec3, Vec4, FLOAT_HALF, FLOAT_ONE, FLOAT_ZERO};

fn bits3(x: f32, y: f32, z: f32) -> Vec3 {
    Vec3::new(x.to_bits(), y.to_bits(), z.to_bits())
}

fn native_bytes(words: &[u32]) -> Vec<u8> {
    words.iter().flat_map(|w| w.to_ne_bytes()).collect()
}

#[test]
fn float_constants_are_the_bit_patterns_of_their_values() {
    assert_eq!(FLOAT_ZERO, 0.0f32.to_bits());
    assert_eq!(FLOAT_HALF, 0.5f32.to_bits());
    assert_eq!(FLOAT_ONE, 1.0f32.to_bits());
}

#[test]
fn extend_appends_the_fourth_component() {
    let v = bits3(1.5, -2.0, 3.25).extend(FLOAT_ONE);
    assert_eq!(v, Vec4::new(1.5f32.to_bits(), (-2.0f32).to_bits(), 3.25f32.to_bits(), FLOAT_ONE));
}

#[test]
fn identity_has_ones_on_the_diagonal() {
    let m = Mat4::identity();
    let mut words = Vec::new();
    m.push_words(&mut words);
    let floats: Vec<f32> = words.iter().map(|w| f32::from_bits(*w)).collect();
    let expected = [
        1.0, 0.0, 0.0, 0.0, 0.0, 1.0, 0.0, 0.0, 0.0, 0.0, 1.0, 0.0, 0.0, 0.0, 0.0, 1.0f32,
    ];
    assert_eq!(floats, expected.to_vec());
}

#[test]
fn to_raw_sets_w_to_one() {
    let i = Instance { position: bits3(-700.0, 0.0, 12.0), color: bits3(0.25, 0.5, 0.75) };
    let raw = i.to_raw();
    assert_eq!(raw.position, Vec4::new((-700.0f32).to_bits(), 0, 12.0f32.to_bits(), FLOAT_ONE));
    assert_eq!(
        raw.color,
        Vec4::new(0.25f32.to_bits(), 0.5f32.to_bits(), 0.75f32.to_bits(), 1.0f32.to_bits())
    );
}

#[test]
fn instances_to_raw_keeps_order() {
    let a = Instance { position: bits3(1.0, 2.0, 3.0), color: bits3(0.0, 0.0, 0.0) };
    let b = Instance { position: bits3(4.0, 5.0, 6.0), color: bits3(1.0, 1.0, 1.0) };
    let raws = instances_to_raw(&[a, b]);
    assert_eq!(raws, vec![a.to_raw(), b.to_raw()]);
    assert!(instances_to_raw(&[]).is_empty());
}

#[test]
fn index_buffer_holds_the_indices_in_native_byte_order() {
    let indices = [0u32, 1, 2, 0x0102_0304, u32::MAX];
    let bytes = index_buffer_contents(&indices);
    assert_eq!(bytes.len(), 20);
    assert_eq!(bytes, native_bytes(&indices));
    assert_eq!(&bytes[12..16], &0x0102_0304u32.to_ne_bytes());
    assert!(index_buffer_contents(&[]).is_empty());
}

#[test]
fn instance_buffer_has_a_stride_of_thirty_two_bytes() {
    let a = Instance { position: bits3(-700.0, 0.0, -700.0), color: bits3(0.1, 0.2, 0.3) };
    let b = Instance { position: bits3(699.0, 0.0, 699.0), color: bits3(0.9, 0.8, 0.7) };
    let raws: Vec<InstanceRaw> = instances_to_raw(&[a, b]);
    let bytes = instance_buffer_contents(&raws);
    assert_eq!(bytes.len(), 64);
    let second: Vec<f32> = bytes[32..64]
        .chunks(4)
        .map(|c| f32::from_ne_bytes([c[0], c[1], c[2], c[3]]))
        .collect();
    assert_eq!(second, vec![699.0, 0.0, 699.0, 1.0, 0.9, 0.8, 0.7, 1.0]);
    let first: Vec<f32> = bytes[0..32]
        .chunks(4)
        .map(|c| f32::from_ne_bytes([c[0], c[1], c[2], c[3]]))
        .collect();
    assert_eq!(first, vec![-700.0, 0.0, -700.0, 1.0, 0.1, 0.2, 0.3, 1.0]);
}
