use vstd::prelude::*;
use crate::linalg::{Mat4, Vec3};
use crate::uniforms::{initial_uniforms, uniform_words, updated, Uniforms, UniformsView};
use crate::bytes::is_memory_image;

verus! {

/// A window's size in physical pixels.
#[derive(Clone, Copy, Debug, PartialEq, Eq, Structural)]
pub struct PhysicalSize {
    pub width: u32,
    pub height: u32,
}

/// The size the swap chain is (re)created with.
#[derive(Clone, Copy, Debug, PartialEq, Eq, Structural)]
pub struct SurfaceConfig {
    pub width: u32,
    pub height: u32,
}

/// One indexed draw: indices `index_start..index_end` with `base_vertex`
/// added to each, for instances `instance_start..instance_end`.
#[derive(Clone, Copy, Debug, PartialEq, Eq, Structural)]
pub struct DrawIndexed {
    pub index_start: u32,
    pub index_end: u32,
    pub base_vertex: i32,
    pub instance_start: u32,
    pub instance_end: u32,
}

/// The renderer's bookkeeping: window size, swap-chain size, the uniform
/// block it uploads, and how many indices each frame draws.
pub struct State {
    size: PhysicalSize,
    surface: SurfaceConfig,
    uniforms: Uniforms,
    num_indices: u32,
}

/// What a `State` holds.
pub struct StateView {
    pub size: PhysicalSize,
    pub surface: SurfaceConfig,
    pub uniforms: UniformsView,
    pub num_indices: u32,
}

impl View for State {
    type V = StateView;

    closed spec fn view(&self) -> StateView {
        StateView {
            size: self.size,
            surface: self.surface,
            uniforms: self.uniforms@,
            num_indices: self.num_indices,
        }
    }
}

/// The swap-chain size for a window of size `size`: the same width and height.
pub open spec fn surface_for(size: PhysicalSize) -> SurfaceConfig {
    SurfaceConfig { width: size.width, height: size.height }
}

/// The swap chain takes the window's own width as its width and the
/// window's own height as its height, whatever their proportions.
pub proof fn lemma_surface_takes_window_size(size: PhysicalSize)
    ensures
        surface_for(size).width == size.width,
        surface_for(size).height == size.height,
{
}

/// The swap chain is sized to the window.
pub open spec fn surface_matches_window(s: StateView) -> bool {
    s.surface == surface_for(s.size)
}

/// The draw of a frame: every index once, from vertex 0, for one instance.
pub open spec fn frame_draw(s: StateView) -> DrawIndexed {
    DrawIndexed {
        index_start: 0,
        index_end: s.num_indices,
        base_vertex: 0,
        instance_start: 0,
        instance_end: 1,
    }
}

/// A call that changes or reads a `State`: `resize`, `update` or `render`.
pub enum StateCall {
    Resize(PhysicalSize),
    Update(Mat4, Vec3),
    Render,
}

/// What `s` becomes after `call`.
pub open spec fn after_call(s: StateView, call: StateCall) -> StateView {
    match call {
        StateCall::Resize(new_size) => StateView { size: new_size, surface: surface_for(new_size), ..s },
        StateCall::Update(view_projection, eye) => StateView {
            uniforms: updated(s.uniforms, view_projection, eye),
            ..s
        },
        StateCall::Render => s,
    }
}

/// What `s` becomes after each of `calls` in turn.
pub open spec fn after_calls(s: StateView, calls: Seq<StateCall>) -> StateView
    decreases calls.len(),
{
    if calls.len() == 0 {
        s
    } else {
        after_call(after_calls(s, calls.drop_last()), calls.last())
    }
}

/// The camera (view-projection matrix, eye) most recently handed over: that
/// of the last `Update` among `calls`, or `initial` when there is none.
pub open spec fn last_camera(initial: (Mat4, Vec3), calls: Seq<StateCall>) -> (Mat4, Vec3)
    decreases calls.len(),
{
    if calls.len() == 0 {
        initial
    } else {
        match calls.last() {
            StateCall::Update(view_projection, eye) => (view_projection, eye),
            _ => last_camera(initial, calls.drop_last()),
        }
    }
}

/// The state that `State::new` builds.
pub open spec fn initial_state(
    size: PhysicalSize,
    num_indices: u32,
    view_projection: Mat4,
    eye: Vec3,
) -> StateView {
    StateView {
        size,
        surface: surface_for(size),
        uniforms: updated(initial_uniforms(), view_projection, eye),
        num_indices,
    }
}

/// Whether `u` is a fresh uniform block updated with some camera.
pub open spec fn is_camera_block(u: UniformsView) -> bool {
    exists|view_projection: Mat4, eye: Vec3| u == updated(initial_uniforms(), view_projection, eye)
}

/// After `State::new` and any sequence of calls, the uniform block is a fresh
/// block updated with the last camera handed over (so its cube half-extent
/// is still 0.5), the swap chain matches the window, and the index count is
/// the one `new` set.
pub proof fn lemma_state_uniforms_follow_last_camera(
    size: PhysicalSize,
    num_indices: u32,
    view_projection: Mat4,
    eye: Vec3,
    calls: Seq<StateCall>,
)
    ensures
        ({
            let s = after_calls(initial_state(size, num_indices, view_projection, eye), calls);
            let (last_view_projection, last_eye) = last_camera((view_projection, eye), calls);
            &&& s.uniforms == updated(initial_uniforms(), last_view_projection, last_eye)
            &&& surface_matches_window(s)
            &&& s.num_indices == num_indices
        }),
    decreases calls.len(),
{
    if calls.len() > 0 {
        lemma_state_uniforms_follow_last_camera(
            size,
            num_indices,
            view_projection,
            eye,
            calls.drop_last(),
        );
    }
}

impl State {
    #[verifier::type_invariant]
    closed spec fn well_formed(self) -> bool {
        &&& self.surface == surface_for(self.size)
        &&& is_camera_block(self.uniforms@)
    }

    /// The state of a renderer that opens on a window of size `size`, draws
    /// `indices`, and starts from a camera with view-projection matrix
    /// `view_projection` at `eye`. The index count is the number of indices
    /// taken modulo 2^32.
    pub fn new(size: PhysicalSize, indices: &[u32], view_projection: Mat4, eye: Vec3) -> (s: State)
        ensures
            s@ == (StateView {
                size,
                surface: surface_for(size),
                uniforms: updated(initial_uniforms(), view_projection, eye),
                num_indices: indices@.len() as u32,
            }),
            s@ == initial_state(size, indices@.len() as u32, view_projection, eye),
            s@.surface.width == size.width,
            s@.surface.height == size.height,
            surface_matches_window(s@),
    {
        let mut uniforms = Uniforms::new();
        uniforms.update(view_projection, eye);
        let num_indices = indices.len() as u32;
        State {
            size,
            surface: SurfaceConfig { width: size.width, height: size.height },
            uniforms,
            num_indices,
        }
    }

    /// Follows the window to `new_size`: window size and swap-chain size
    /// change, nothing else does.
    pub fn resize(&mut self, new_size: PhysicalSize)
        ensures
            final(self)@ == (StateView {
                size: new_size,
                surface: surface_for(new_size),
                ..old(self)@
            }),
            final(self)@ == after_call(old(self)@, StateCall::Resize(new_size)),
            final(self)@.size == new_size,
            final(self)@.surface.width == new_size.width,
            final(self)@.surface.height == new_size.height,
            surface_matches_window(final(self)@),
    {
        proof {
            use_type_invariant(&*self);
        }
        *self = State {
            size: new_size,
            surface: SurfaceConfig { width: new_size.width, height: new_size.height },
            uniforms: self.uniforms,
            num_indices: self.num_indices,
        };
    }

    /// Takes the moved camera and returns the bytes to write at the start of
    /// the uniform buffer: the updated uniform block's memory image.
    pub fn update(&mut self, view_projection: Mat4, eye: Vec3) -> (bytes: Vec<u8>)
        ensures
            final(self)@ == (StateView {
                uniforms: updated(old(self)@.uniforms, view_projection, eye),
                ..old(self)@
            }),
            is_memory_image(uniform_words(final(self)@.uniforms), bytes@),
            bytes@.len() == 96,
            final(self)@ == after_call(old(self)@, StateCall::Update(view_projection, eye)),
            surface_matches_window(final(self)@),
    {
        proof {
            use_type_invariant(&*self);
        }
        let mut uniforms = self.uniforms;
        uniforms.update(view_projection, eye);
        assert(uniforms@ == updated(initial_uniforms(), view_projection, eye));
        self.uniforms = uniforms;
        uniforms.to_bytes()
    }

    /// The draw that renders a frame.
    pub fn render(&self) -> (draw: DrawIndexed)
        ensures
            draw == frame_draw(self@),
            after_call(self@, StateCall::Render) == self@,
    {
        DrawIndexed {
            index_start: 0,
            index_end: self.num_indices,
            base_vertex: 0,
            instance_start: 0,
            instance_end: 1,
        }
    }

    /// The window size.
    pub fn size(&self) -> (size: PhysicalSize)
        ensures
            size == self@.size,
    {
        self.size
    }

    /// The swap-chain size.
    pub fn surface_config(&self) -> (config: SurfaceConfig)
        ensures
            config == self@.surface,
            config == surface_for(self@.size),
    {
        proof {
            use_type_invariant(self);
        }
        self.surface
    }

    /// The uniform block.
    pub fn uniforms(&self) -> (u: &Uniforms)
        ensures
            u@ == self@.uniforms,
            is_camera_block(u@),
    {
        proof {
            use_type_invariant(self);
        }
        &self.uniforms
    }

    /// The number of indices each frame draws.
    pub fn num_indices(&self) -> (n: u32)
        ensures
            n == self@.num_indices,
    {
        self.num_indices
    }
}

} // verus!
