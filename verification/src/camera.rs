//! The camera: a perspective projection and a look-at view.

use crate::common::WindowDimensions;
use crate::matrix::{Matrix, Vec3};
use vstd::prelude::*;

verus! {

/// The bit pattern of the f32 value 45.0: the fixed vertical field of view.
pub const FOV_Y: u32 = 0x4234_0000;

/// The bit pattern of the f32 value 0.01: the near clip distance.
pub const Z_NEAR: u32 = 0x3C23_D70A;

/// The bit pattern of the f32 value 1000.0: the far clip distance.
pub const Z_FAR: u32 = 0x447A_0000;

/// A camera, as the pair of matrices every draw combines with a model matrix.
pub struct Camera {
    pub projection: Matrix,
    pub view: Matrix,
}

impl Camera {
    /// The projection a window of the given size calls for: a perspective
    /// matrix whose aspect ratio is width over height, with the fixed field of
    /// view and clip distances.
    pub open spec fn spec_projection_for(window_dimensions: WindowDimensions) -> Matrix {
        Matrix::Perspective {
            width: window_dimensions.width,
            height: window_dimensions.height,
            fovy: FOV_Y,
            znear: Z_NEAR,
            zfar: Z_FAR,
        }
    }

    /// The view of an eye at `position` looking at `look_at`, with +Y up.
    pub open spec fn spec_view_for(position: Vec3, look_at: Vec3) -> Matrix {
        Matrix::LookAt { eye: position, target: look_at, up: Vec3::spec_up() }
    }

    /// Builds the camera of a window of the given size and a look-at pose.
    /// The aspect ratio comes from the dimensions passed here, so a camera
    /// must be rebuilt by its caller after a resize.
    pub fn with_perpective(
        window_dimensions: WindowDimensions,
        position: Vec3,
        look_at: Vec3,
    ) -> (r: Self)
        ensures
            r.projection == Camera::spec_projection_for(window_dimensions),
            r.view == Camera::spec_view_for(position, look_at),
    {
        let up = Vec3::up();
        let view = Matrix::LookAt { eye: position, target: look_at, up };

        Self {
            projection: Matrix::Perspective {
                width: window_dimensions.width,
                height: window_dimensions.height,
                fovy: FOV_Y,
                znear: Z_NEAR,
                zfar: Z_FAR,
            },
            view,
        }
    }

    /// The model-view-projection matrix of one model under this camera:
    /// projection times view, times the model matrix.
    pub open spec fn spec_mvp(&self, model: Matrix) -> Matrix {
        Matrix::Product(
            Box::new(Matrix::Product(Box::new(self.projection), Box::new(self.view))),
            Box::new(model),
        )
    }

    /// Combines the camera with a model matrix.
    pub fn calculate_mvp(&self, model: Matrix) -> (r: Matrix)
        ensures
            r == self.spec_mvp(model),
    {
        Matrix::Product(
            Box::new(Matrix::Product(Box::new(self.projection.dup()), Box::new(self.view.dup()))),
            Box::new(model),
        )
    }
}

} // verus!
