//! Window dimensions and per-object transformations.

use crate::matrix::{Matrix, Vec3};
use vstd::prelude::*;

verus! {

/// Relies on uuid::Uuid::new_v4: a fresh version-4 UUID drawn from the
/// process's random source, carried as its 128-bit value.  The result is
/// random, so nothing is assumed of it; in particular distinct calls are not
/// promised distinct values.
#[verifier::external_body]
pub(crate) fn fresh_id() -> u128 {
    uuid::Uuid::new_v4().as_u128()
}

/// The size of the presentation window, in pixels.
#[derive(Debug, Clone, Copy, PartialEq, Eq, Structural)]
pub struct WindowDimensions {
    pub width: u32,
    pub height: u32,
}

impl Default for WindowDimensions {
    /// The startup window size.
    fn default() -> (r: Self)
        ensures
            r.width == 800,
            r.height == 600,
    {
        Self { width: 800, height: 600 }
    }
}

impl WindowDimensions {
    pub fn new(width: u32, height: u32) -> (r: Self)
        ensures
            r.width == width,
            r.height == height,
    {
        Self { width, height }
    }
}

/// The placement of one object in the scene: a translation, an Euler-angle
/// rotation and a uniform scale, each component an f32 bit pattern.
#[derive(Debug, Clone, Copy, PartialEq, Eq, Structural)]
pub struct Transfomation {
    translations: Vec3,
    rotation: Vec3,
    scale: u32,
}

impl Transfomation {
    pub closed spec fn spec_translations(&self) -> Vec3 {
        self.translations
    }

    pub closed spec fn spec_rotation(&self) -> Vec3 {
        self.rotation
    }

    pub closed spec fn spec_scale(&self) -> u32 {
        self.scale
    }

    /// The model matrix this transformation stands for: the translation matrix
    /// times the rotation matrix, uniformly scaled.
    pub open spec fn spec_matrix(&self) -> Matrix {
        Matrix::Scaled(
            Box::new(
                Matrix::Product(
                    Box::new(Matrix::Translation(self.spec_translations())),
                    Box::new(Matrix::Rotation(self.spec_rotation())),
                ),
            ),
            self.spec_scale(),
        )
    }

    pub fn new(translation: [u32; 3], rotation: [u32; 3], scale: u32) -> (r: Self)
        ensures
            r.spec_translations() == (Vec3 { x: translation[0], y: translation[1], z: translation[2] }),
            r.spec_rotation() == (Vec3 { x: rotation[0], y: rotation[1], z: rotation[2] }),
            r.spec_scale() == scale,
    {
        Self {
            translations: Vec3::new(translation[0], translation[1], translation[2]),
            rotation: Vec3::new(rotation[0], rotation[1], rotation[2]),
            scale,
        }
    }

    /// The matrix of the transformation, decomposed as translation times
    /// rotation, uniformly scaled.
    pub fn as_matrix(&self) -> (r: Matrix)
        ensures
            r == self.spec_matrix(),
    {
        let rotation = Matrix::Rotation(self.rotation);
        let translation = Matrix::Translation(self.translations);

        Matrix::Scaled(
            Box::new(Matrix::Product(Box::new(translation), Box::new(rotation))),
            self.scale,
        )
    }
}

} // verus!
