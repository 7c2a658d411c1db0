use vstd::prelude::*;
use crate::linalg::{
    extended, identity_spec, mat4_words, splat4, vec4_words, Mat4, Vec3, Vec4, FLOAT_HALF,
    FLOAT_ONE,
};
use crate::bytes::{is_memory_image, words_to_bytes};

verus! {

/// The shader's uniform block: the world-to-screen matrix, the camera's
/// homogeneous position, and the half-extent of a voxel cube along each axis.
#[derive(Clone, Copy, Debug)]
pub struct Uniforms {
    world_to_screen: Mat4,
    camera_position: Vec4,
    center_to_edge: Vec4,
}

/// What a `Uniforms` value holds.
pub struct UniformsView {
    pub world_to_screen: Mat4,
    pub camera_position: Vec4,
    pub center_to_edge: Vec4,
}

impl View for Uniforms {
    type V = UniformsView;

    closed spec fn view(&self) -> UniformsView {
        UniformsView {
            world_to_screen: self.world_to_screen,
            camera_position: self.camera_position,
            center_to_edge: self.center_to_edge,
        }
    }
}

/// The uniforms before any camera is known: identity matrix, camera at the
/// origin with every component `0.0`, cubes of half-extent `0.5`.
pub open spec fn initial_uniforms() -> UniformsView {
    UniformsView {
        world_to_screen: identity_spec(),
        camera_position: splat4(crate::linalg::FLOAT_ZERO),
        center_to_edge: splat4(FLOAT_HALF),
    }
}

/// `u` after a camera update: the camera's view-projection matrix, and the
/// camera's eye extended with `w = 1.0`; the cube half-extent is kept.
pub open spec fn updated(u: UniformsView, view_projection: Mat4, eye: Vec3) -> UniformsView {
    UniformsView {
        world_to_screen: view_projection,
        camera_position: extended(eye, FLOAT_ONE),
        center_to_edge: u.center_to_edge,
    }
}

/// The 24 words of the uniform block in memory order: the matrix column
/// after column, then the camera position, then the half-extent.
pub open spec fn uniform_words(u: UniformsView) -> Seq<u32> {
    mat4_words(u.world_to_screen) + vec4_words(u.camera_position) + vec4_words(u.center_to_edge)
}

impl Uniforms {
    /// The uniforms before any camera is known.
    pub fn new() -> (u: Uniforms)
        ensures
            u@ == initial_uniforms(),
    {
        Uniforms {
            world_to_screen: Mat4::identity(),
            camera_position: Vec4::zero(),
            center_to_edge: Vec4::new(FLOAT_HALF, FLOAT_HALF, FLOAT_HALF, FLOAT_HALF),
        }
    }

    /// Takes the camera's view-projection matrix and eye position.
    pub fn update(&mut self, view_projection: Mat4, eye: Vec3)
        ensures
            final(self)@ == updated(old(self)@, view_projection, eye),
            final(self)@.world_to_screen == view_projection,
            final(self)@.camera_position == (Vec4 { x: eye.x, y: eye.y, z: eye.z, w: FLOAT_ONE }),
            final(self)@.center_to_edge == old(self)@.center_to_edge,
    {
        self.world_to_screen = view_projection;
        self.camera_position = eye.extend(FLOAT_ONE);
    }

    /// The world-to-screen matrix.
    pub fn world_to_screen(&self) -> (m: Mat4)
        ensures
            m == self@.world_to_screen,
    {
        self.world_to_screen
    }

    /// The camera's homogeneous position.
    pub fn camera_position(&self) -> (v: Vec4)
        ensures
            v == self@.camera_position,
    {
        self.camera_position
    }

    /// The half-extent of a voxel cube along each axis.
    pub fn center_to_edge(&self) -> (v: Vec4)
        ensures
            v == self@.center_to_edge,
    {
        self.center_to_edge
    }

    /// The uniform block's memory image, as uploaded to the uniform buffer.
    pub fn to_bytes(&self) -> (bytes: Vec<u8>)
        ensures
            is_memory_image(uniform_words(self@), bytes@),
            is_memory_image(seq![self@.world_to_screen.x_axis.x, self@.world_to_screen.x_axis.y, self@.world_to_screen.x_axis.z, self@.world_to_screen.x_axis.w, self@.world_to_screen.y_axis.x, self@.world_to_screen.y_axis.y, self@.world_to_screen.y_axis.z, self@.world_to_screen.y_axis.w, self@.world_to_screen.z_axis.x, self@.world_to_screen.z_axis.y, self@.world_to_screen.z_axis.z, self@.world_to_screen.z_axis.w, self@.world_to_screen.w_axis.x, self@.world_to_screen.w_axis.y, self@.world_to_screen.w_axis.z, self@.world_to_screen.w_axis.w, self@.camera_position.x, self@.camera_position.y, self@.camera_position.z, self@.camera_position.w, self@.center_to_edge.x, self@.center_to_edge.y, self@.center_to_edge.z, self@.center_to_edge.w], bytes@),
            bytes@.len() == 96,
    {
        proof {
            lemma_uniform_block_layout(self@);
        }
        let mut words: Vec<u32> = Vec::new();
        self.world_to_screen.push_words(&mut words);
        self.camera_position.push_words(&mut words);
        self.center_to_edge.push_words(&mut words);
        assert(words@ =~= uniform_words(self@));
        words_to_bytes(&words)
    }
}

/// The uniform block's 24 words: the matrix's sixteen entries column by
/// column (x_axis, y_axis, z_axis, w_axis; within a column x, y, z, w), then
/// the camera position's x, y, z, w, then the half-extent's x, y, z, w.
pub proof fn lemma_uniform_block_layout(u: UniformsView)
    ensures
        uniform_words(u) == seq![u.world_to_screen.x_axis.x, u.world_to_screen.x_axis.y, u.world_to_screen.x_axis.z, u.world_to_screen.x_axis.w, u.world_to_screen.y_axis.x, u.world_to_screen.y_axis.y, u.world_to_screen.y_axis.z, u.world_to_screen.y_axis.w, u.world_to_screen.z_axis.x, u.world_to_screen.z_axis.y, u.world_to_screen.z_axis.z, u.world_to_screen.z_axis.w, u.world_to_screen.w_axis.x, u.world_to_screen.w_axis.y, u.world_to_screen.w_axis.z, u.world_to_screen.w_axis.w, u.camera_position.x, u.camera_position.y, u.camera_position.z, u.camera_position.w, u.center_to_edge.x, u.center_to_edge.y, u.center_to_edge.z, u.center_to_edge.w],
        uniform_words(u).len() == 24,
        forall|c: int, r: int|
            0 <= c < 4 && 0 <= r < 4 ==> #[trigger] uniform_words(u)[4 * c + r] == (if c == 0 {
                seq![u.world_to_screen.x_axis.x, u.world_to_screen.x_axis.y, u.world_to_screen.x_axis.z, u.world_to_screen.x_axis.w][r]
            } else if c == 1 {
                seq![u.world_to_screen.y_axis.x, u.world_to_screen.y_axis.y, u.world_to_screen.y_axis.z, u.world_to_screen.y_axis.w][r]
            } else if c == 2 {
                seq![u.world_to_screen.z_axis.x, u.world_to_screen.z_axis.y, u.world_to_screen.z_axis.z, u.world_to_screen.z_axis.w][r]
            } else {
                seq![u.world_to_screen.w_axis.x, u.world_to_screen.w_axis.y, u.world_to_screen.w_axis.z, u.world_to_screen.w_axis.w][r]
            }),
{
    assert(uniform_words(u) =~= seq![u.world_to_screen.x_axis.x, u.world_to_screen.x_axis.y, u.world_to_screen.x_axis.z, u.world_to_screen.x_axis.w, u.world_to_screen.y_axis.x, u.world_to_screen.y_axis.y, u.world_to_screen.y_axis.z, u.world_to_screen.y_axis.w, u.world_to_screen.z_axis.x, u.world_to_screen.z_axis.y, u.world_to_screen.z_axis.z, u.world_to_screen.z_axis.w, u.world_to_screen.w_axis.x, u.world_to_screen.w_axis.y, u.world_to_screen.w_axis.z, u.world_to_screen.w_axis.w, u.camera_position.x, u.camera_position.y, u.camera_position.z, u.camera_position.w, u.center_to_edge.x, u.center_to_edge.y, u.center_to_edge.z, u.center_to_edge.w]);
}

/// An update puts the matrix in place as given, and the eye's own x, y, z
/// (sign and all) with `w` the bit pattern of 1.0; the half-extent is kept.
pub proof fn lemma_update_takes_camera(u: UniformsView, view_projection: Mat4, eye: Vec3)
    ensures
        updated(u, view_projection, eye).world_to_screen == view_projection,
        updated(u, view_projection, eye).camera_position == (Vec4 {
            x: eye.x,
            y: eye.y,
            z: eye.z,
            w: 0x3F80_0000u32,
        }),
        updated(u, view_projection, eye).center_to_edge == u.center_to_edge,
{
}

/// An update depends on the camera alone: a second update erases the first.
pub proof fn lemma_update_last_wins(
    u: UniformsView,
    first_view_projection: Mat4,
    first_eye: Vec3,
    view_projection: Mat4,
    eye: Vec3,
)
    ensures
        updated(updated(u, first_view_projection, first_eye), view_projection, eye) == updated(
            u,
            view_projection,
            eye,
        ),
{
}

/// `u` after each camera of `cameras` in turn (view-projection matrix, eye).
pub open spec fn after_updates(u: UniformsView, cameras: Seq<(Mat4, Vec3)>) -> UniformsView
    decreases cameras.len(),
{
    if cameras.len() == 0 {
        u
    } else {
        let (view_projection, eye) = cameras.last();
        updated(after_updates(u, cameras.drop_last()), view_projection, eye)
    }
}

/// Updates never touch the cube half-extent: from the initial uniforms, any
/// sequence of camera updates keeps it at `0.5` in every component, and after
/// at least one update the uniforms reflect the last camera alone.
pub proof fn lemma_updates_keep_center_to_edge(cameras: Seq<(Mat4, Vec3)>)
    ensures
        after_updates(initial_uniforms(), cameras).center_to_edge == splat4(FLOAT_HALF),
        cameras.len() > 0 ==> after_updates(initial_uniforms(), cameras) == updated(
            initial_uniforms(),
            cameras.last().0,
            cameras.last().1,
        ),
    decreases cameras.len(),
{
    if cameras.len() > 0 {
        lemma_updates_keep_center_to_edge(cameras.drop_last());
    }
}

} // verus!
