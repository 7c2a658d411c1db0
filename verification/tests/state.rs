use voxels::linalg::{Mat4, Vec3, Vec4, FLOAT_HALF, FLOAT_ONE};
use voxels::state::{DrawIndexed, PhysicalSize, State, SurfaceConfig};
use voxels::uniforms::Uniforms;

fn bits3(x: f32, y: f32, z: f32) -> Vec3 {
    Vec3::new(x.to_bits(), y.to_bits(), z.to_bits())
}

fn matrix(base: f32) -> Mat4 {
    let col = |k: f32| {
        Vec4::new(
            (base + k).to_bits(),
            (base + k + 0.25).to_bits(),
            (base + k + 0.5).to_bits(),
            (base + k + 0.75).to_bits(),
        )
    };
    Mat4 { x_axis: col(0.0), y_axis: col(1.0), z_axis: col(2.0), w_axis: col(3.0) }
}

fn floats(bytes: &[u8]) -> Vec<f32> {
    bytes.chunks(4).map(|c| f32::from_ne_bytes([c[0], c[1], c[2], c[3]])).collect()
}

#[test]
fn new_uniforms_are_identity_origin_and_half_cubes() {
    let u = Uniforms::new();
    assert_eq!(u.world_to_screen(), Mat4::identity());
    assert_eq!(u.camera_position(), Vec4::new(0, 0, 0, 0));
    assert_eq!(u.center_to_edge(), Vec4::new(FLOAT_HALF, FLOAT_HALF, FLOAT_HALF, FLOAT_HALF));
    let f = floats(&u.to_bytes());
    assert_eq!(f.len(), 24);
    assert_eq!(&f[16..24], &[0.0, 0.0, 0.0, 0.0, 0.5, 0.5, 0.5, 0.5]);
}

#[test]
fn uniforms_update_takes_matrix_and_eye() {
    let mut u = Uniforms::new();
    u.update(matrix(10.0), bits3(300.0, 100.0, 300.0));
    assert_eq!(u.world_to_screen(), matrix(10.0));
    assert_eq!(u.camera_position(), Vec4::new(300.0f32.to_bits(), 100.0f32.to_bits(), 300.0f32.to_bits(), FLOAT_ONE));
    let f = floats(&u.to_bytes());
    assert_eq!(f.len(), 24);
    assert_eq!(&f[0..4], &[10.0, 10.25, 10.5, 10.75]);
    assert_eq!(&f[12..16], &[13.0, 13.25, 13.5, 13.75]);
    assert_eq!(&f[16..24], &[300.0, 100.0, 300.0, 1.0, 0.5, 0.5, 0.5, 0.5]);
}

#[test]
fn second_update_erases_the_first() {
    let mut a = Uniforms::new();
    a.update(matrix(1.0), bits3(1.0, 2.0, 3.0));
    a.update(matrix(5.0), bits3(4.0, 5.0, 6.0));
    let mut b = Uniforms::new();
    b.update(matrix(5.0), bits3(4.0, 5.0, 6.0));
    assert_eq!(a.to_bytes(), b.to_bytes());
}

#[test]
fn new_state_follows_window_and_counts_indices() {
    let size = PhysicalSize { width: 800, height: 600 };
    let s = State::new(size, &[0, 1, 2, 2, 3, 0], matrix(0.0), bits3(300.0, 100.0, 300.0));
    assert_eq!(s.size(), size);
    assert_eq!(s.surface_config(), SurfaceConfig { width: 800, height: 600 });
    assert_eq!(s.num_indices(), 6);
    assert_eq!(s.uniforms().world_to_screen(), matrix(0.0));
    assert_eq!(s.uniforms().camera_position().w, FLOAT_ONE);
}

#[test]
fn resize_changes_window_and_swap_chain_only() {
    let mut s = State::new(PhysicalSize { width: 800, height: 600 }, &[0, 1, 2], matrix(0.0), bits3(1.0, 1.0, 1.0));
    let before = s.uniforms().to_bytes();
    s.resize(PhysicalSize { width: 1920, height: 1080 });
    assert_eq!(s.size(), PhysicalSize { width: 1920, height: 1080 });
    assert_eq!(s.surface_config(), SurfaceConfig { width: 1920, height: 1080 });
    assert_eq!(s.num_indices(), 3);
    assert_eq!(s.uniforms().to_bytes(), before);
    s.resize(PhysicalSize { width: 0, height: 0 });
    assert_eq!(s.surface_config(), SurfaceConfig { width: 0, height: 0 });
}

#[test]
fn update_returns_the_new_uniform_block() {
    let mut s = State::new(PhysicalSize { width: 4, height: 3 }, &[], matrix(0.0), bits3(0.0, 0.0, 0.0));
    let bytes = s.update(matrix(2.0), bits3(7.0, 8.0, 9.0));
    assert_eq!(bytes, s.uniforms().to_bytes());
    let f = floats(&bytes);
    assert_eq!(&f[16..20], &[7.0, 8.0, 9.0, 1.0]);
    assert_eq!(s.surface_config(), SurfaceConfig { width: 4, height: 3 });
}

#[test]
fn render_draws_every_index_for_one_instance() {
    let s = State::new(PhysicalSize { width: 4, height: 3 }, &[0, 1, 2, 3, 4, 5, 6, 7, 8], matrix(0.0), bits3(0.0, 0.0, 0.0));
    assert_eq!(
        s.render(),
        DrawIndexed { index_start: 0, index_end: 9, base_vertex: 0, instance_start: 0, instance_end: 1 }
    );
    let empty = State::new(PhysicalSize { width: 4, height: 3 }, &[], matrix(0.0), bits3(0.0, 0.0, 0.0));
    assert_eq!(empty.render().index_end, 0);
}

#[test]
fn uniforms_follow_the_last_camera_across_calls() {
    let mut s = State::new(PhysicalSize { width: 640, height: 480 }, &[0, 1, 2], matrix(0.0), bits3(1.0, 2.0, 3.0));
    s.resize(PhysicalSize { width: 320, height: 200 });
    let _ = s.update(matrix(3.0), bits3(4.0, 5.0, 6.0));
    let _ = s.render();
    s.resize(PhysicalSize { width: 100, height: 50 });
    let mut fresh = Uniforms::new();
    fresh.update(matrix(3.0), bits3(4.0, 5.0, 6.0));
    assert_eq!(s.uniforms().to_bytes(), fresh.to_bytes());
    assert_eq!(s.surface_config(), SurfaceConfig { width: 100, height: 50 });
    assert_eq!(s.num_indices(), 3);
}
