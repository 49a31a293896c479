//! The symbolic form of the 4x4 matrices that the renderer asks of its math
//! library.
//!
//! The core never computes with floating point itself: every matrix it handles
//! is the exact description of one value the math library can construct, and
//! the unverified shell evaluates such a description into a concrete
//! single-precision matrix right before it reaches the GPU.  Scalar components
//! are carried as the bit patterns of the IEEE-754 single-precision values they
//! stand for, so a description pins its evaluated matrix down exactly.

use vstd::prelude::*;

verus! {

/// The bit pattern of the f32 value 0.0.
pub const F32_ZERO: u32 = 0x0000_0000;

/// The bit pattern of the f32 value 1.0.
pub const F32_ONE: u32 = 0x3F80_0000;

/// The bit pattern of the f32 value -1.0.
pub const F32_NEG_ONE: u32 = 0xBF80_0000;

/// A 3-component vector; each component is the bit pattern of an f32 value.
#[derive(Debug, Clone, Copy, PartialEq, Eq, Structural)]
pub struct Vec3 {
    pub x: u32,
    pub y: u32,
    pub z: u32,
}

impl Vec3 {
    pub fn new(x: u32, y: u32, z: u32) -> (r: Vec3)
        ensures
            r == (Vec3 { x, y, z }),
    {
        Vec3 { x, y, z }
    }

    /// The zero vector.
    pub fn zeros() -> (r: Vec3)
        ensures
            r == Vec3::spec_zeros(),
    {
        Vec3 { x: F32_ZERO, y: F32_ZERO, z: F32_ZERO }
    }

    pub open spec fn spec_zeros() -> Vec3 {
        Vec3 { x: F32_ZERO, y: F32_ZERO, z: F32_ZERO }
    }

    /// The unit vector that points along +Y.
    pub open spec fn spec_up() -> Vec3 {
        Vec3 { x: F32_ZERO, y: F32_ONE, z: F32_ZERO }
    }

    pub fn up() -> (r: Vec3)
        ensures
            r == Vec3::spec_up(),
    {
        Vec3 { x: F32_ZERO, y: F32_ONE, z: F32_ZERO }
    }
}

/// One 4x4 matrix, described by the exact sequence of math-library
/// constructions that produces it.
#[derive(Debug, PartialEq, Eq)]
pub enum Matrix {
    /// The identity matrix.
    Identity,
    /// A homogeneous translation by the carried vector.
    Translation(Vec3),
    /// A homogeneous rotation built from the carried axis-angle vector.
    Rotation(Vec3),
    /// A perspective projection with aspect ratio `width / height`; the
    /// vertical field of view and the two clip distances are f32 bit patterns.
    Perspective { width: u32, height: u32, fovy: u32, znear: u32, zfar: u32 },
    /// A left-handed look-at view matrix with the carried eye, target and up
    /// vectors.
    LookAt { eye: Vec3, target: Vec3, up: Vec3 },
    /// The matrix product of the two carried matrices, left times right.
    Product(Box<Matrix>, Box<Matrix>),
    /// The carried matrix with every component multiplied by the carried
    /// scalar (an f32 bit pattern).
    Scaled(Box<Matrix>, u32),
}

/// The matrix a drawable uploads for one draw: the one handed to it, or the
/// identity when none is handed.
pub open spec fn spec_resolve_mvp(mvp: Option<Matrix>) -> Matrix {
    match mvp {
        Some(m) => m,
        None => Matrix::Identity,
    }
}

impl Matrix {
    /// An exact copy of the description.  `Matrix` is not `Copy` because a
    /// product owns its factors, so copies are made explicitly.
    pub fn dup(&self) -> (r: Matrix)
        ensures
            r == *self,
        decreases *self,
    {
        match self {
            Matrix::Identity => Matrix::Identity,
            Matrix::Translation(v) => Matrix::Translation(*v),
            Matrix::Rotation(v) => Matrix::Rotation(*v),
            Matrix::Perspective { width, height, fovy, znear, zfar } => Matrix::Perspective {
                width: *width,
                height: *height,
                fovy: *fovy,
                znear: *znear,
                zfar: *zfar,
            },
            Matrix::LookAt { eye, target, up } => Matrix::LookAt {
                eye: *eye,
                target: *target,
                up: *up,
            },
            Matrix::Product(a, b) => Matrix::Product(Box::new(a.dup()), Box::new(b.dup())),
            Matrix::Scaled(m, s) => Matrix::Scaled(Box::new(m.dup()), *s),
        }
    }
}

} // verus!
