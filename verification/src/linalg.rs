use vstd::prelude::*;

verus! {

/// Bit pattern of the single-precision float `0.0`.
pub const FLOAT_ZERO: u32 = 0x0000_0000;

/// Bit pattern of the single-precision float `0.5`.
pub const FLOAT_HALF: u32 = 0x3F00_0000;

/// Bit pattern of the single-precision float `1.0`.
pub const FLOAT_ONE: u32 = 0x3F80_0000;

/// A three-component vector of single-precision floats, each held as its bit pattern.
#[derive(Clone, Copy, Debug, PartialEq, Eq, Structural)]
pub struct Vec3 {
    pub x: u32,
    pub y: u32,
    pub z: u32,
}

/// A four-component vector of single-precision floats, each held as its bit pattern.
#[derive(Clone, Copy, Debug, PartialEq, Eq, Structural)]
pub struct Vec4 {
    pub x: u32,
    pub y: u32,
    pub z: u32,
    pub w: u32,
}

/// A 4x4 matrix of single-precision floats held by columns, each entry as its bit pattern.
#[derive(Clone, Copy, Debug, PartialEq, Eq, Structural)]
pub struct Mat4 {
    pub x_axis: Vec4,
    pub y_axis: Vec4,
    pub z_axis: Vec4,
    pub w_axis: Vec4,
}

/// The vector `(x, y, z, w)` made of `v` and a fourth component `w`.
pub open spec fn extended(v: Vec3, w: u32) -> Vec4 {
    Vec4 { x: v.x, y: v.y, z: v.z, w }
}

/// The four components of `v` in memory order.
pub open spec fn vec4_words(v: Vec4) -> Seq<u32> {
    seq![v.x, v.y, v.z, v.w]
}

/// The sixteen entries of `m` in memory order: column after column.
pub open spec fn mat4_words(m: Mat4) -> Seq<u32> {
    vec4_words(m.x_axis) + vec4_words(m.y_axis) + vec4_words(m.z_axis) + vec4_words(m.w_axis)
}

/// The vector whose four components are all `c`.
pub open spec fn splat4(c: u32) -> Vec4 {
    Vec4 { x: c, y: c, z: c, w: c }
}

/// The identity matrix: ones on the diagonal, zeros elsewhere.
pub open spec fn identity_spec() -> Mat4 {
    Mat4 {
        x_axis: Vec4 { x: FLOAT_ONE, y: FLOAT_ZERO, z: FLOAT_ZERO, w: FLOAT_ZERO },
        y_axis: Vec4 { x: FLOAT_ZERO, y: FLOAT_ONE, z: FLOAT_ZERO, w: FLOAT_ZERO },
        z_axis: Vec4 { x: FLOAT_ZERO, y: FLOAT_ZERO, z: FLOAT_ONE, w: FLOAT_ZERO },
        w_axis: Vec4 { x: FLOAT_ZERO, y: FLOAT_ZERO, z: FLOAT_ZERO, w: FLOAT_ONE },
    }
}

impl Vec3 {
    /// A vector from its three components.
    pub fn new(x: u32, y: u32, z: u32) -> (v: Vec3)
        ensures
            v == (Vec3 { x, y, z }),
    {
        Vec3 { x, y, z }
    }

    /// The vector `(self.x, self.y, self.z, w)`.
    pub fn extend(self, w: u32) -> (v: Vec4)
        ensures
            v == extended(self, w),
    {
        Vec4 { x: self.x, y: self.y, z: self.z, w }
    }
}

impl Vec4 {
    /// A vector from its four components.
    pub fn new(x: u32, y: u32, z: u32, w: u32) -> (v: Vec4)
        ensures
            v == (Vec4 { x, y, z, w }),
    {
        Vec4 { x, y, z, w }
    }

    /// The vector with every component `0.0`.
    pub fn zero() -> (v: Vec4)
        ensures
            v == splat4(FLOAT_ZERO),
    {
        Vec4 { x: FLOAT_ZERO, y: FLOAT_ZERO, z: FLOAT_ZERO, w: FLOAT_ZERO }
    }

    /// The four components in memory order, appended to `out`.
    pub fn push_words(&self, out: &mut Vec<u32>)
        ensures
            final(out)@ == old(out)@ + vec4_words(*self),
    {
        out.push(self.x);
        out.push(self.y);
        out.push(self.z);
        out.push(self.w);
    }
}

impl Mat4 {
    /// The identity matrix.
    pub fn identity() -> (m: Mat4)
        ensures
            m == identity_spec(),
    {
        Mat4 {
            x_axis: Vec4 { x: FLOAT_ONE, y: FLOAT_ZERO, z: FLOAT_ZERO, w: FLOAT_ZERO },
            y_axis: Vec4 { x: FLOAT_ZERO, y: FLOAT_ONE, z: FLOAT_ZERO, w: FLOAT_ZERO },
            z_axis: Vec4 { x: FLOAT_ZERO, y: FLOAT_ZERO, z: FLOAT_ONE, w: FLOAT_ZERO },
            w_axis: Vec4 { x: FLOAT_ZERO, y: FLOAT_ZERO, z: FLOAT_ZERO, w: FLOAT_ONE },
        }
    }

    /// The sixteen entries, column after column, appended to `out`.
    pub fn push_words(&self, out: &mut Vec<u32>)
        ensures
            final(out)@ == old(out)@ + mat4_words(*self),
    {
        self.x_axis.push_words(out);
        self.y_axis.push_words(out);
        self.z_axis.push_words(out);
        self.w_axis.push_words(out);
    }
}

} // verus!
