//! Numeric checks of the matrix descriptions: evaluating a description with
//! the math library yields exactly the matrix that the named sequence of
//! constructions produces.

use nalgebra::{Isometry3, Matrix4, Perspective3, Point3, Vector3};
use renderer::{
    Camera, Matrix, Transfomation, Vec3, WindowDimensions, DEFAULT_EYE_Z, F32_NEG_ONE, F32_ONE,
    F32_ZERO, FOV_Y, Z_FAR, Z_NEAR,
};

fn vector3(v: &Vec3) -> Vector3<f32> {
    Vector3::new(f32::from_bits(v.x), f32::from_bits(v.y), f32::from_bits(v.z))
}

fn point3(v: &Vec3) -> Point3<f32> {
    Point3::new(f32::from_bits(v.x), f32::from_bits(v.y), f32::from_bits(v.z))
}

fn eval(m: &Matrix) -> Matrix4<f32> {
    match m {
        Matrix::Identity => Matrix4::identity(),
        Matrix::Translation(v) => Matrix4::new_translation(&vector3(v)),
        Matrix::Rotation(v) => Matrix4::new_rotation(vector3(v)),
        Matrix::Perspective { width, height, fovy, znear, zfar } => Perspective3::new(
            *width as f32 / *height as f32,
            f32::from_bits(*fovy),
            f32::from_bits(*znear),
            f32::from_bits(*zfar),
        )
        .as_matrix()
        .clone(),
        Matrix::LookAt { eye, target, up } => {
            Isometry3::look_at_lh(&point3(eye), &point3(target), &vector3(up)).to_homogeneous()
        }
        Matrix::Product(a, b) => eval(a) * eval(b),
        Matrix::Scaled(inner, s) => eval(inner).scale(f32::from_bits(*s)),
    }
}

#[test]
fn bit_constants_name_their_values() {
    assert_eq!(F32_ZERO, 0.0f32.to_bits());
    assert_eq!(F32_ONE, 1.0f32.to_bits());
    assert_eq!(F32_NEG_ONE, (-1.0f32).to_bits());
    assert_eq!(FOV_Y, 45.0f32.to_bits());
    assert_eq!(Z_NEAR, 0.01f32.to_bits());
    assert_eq!(Z_FAR, 1000.0f32.to_bits());
    assert_eq!(DEFAULT_EYE_Z, (-5.0f32).to_bits());
}

#[test]
fn transform_decomposes_as_translation_times_rotation_scaled() {
    let translation = [1.5f32, -2.0, 3.25];
    let rotation = [0.3f32, 0.5, -0.7];
    let scale = 0.5f32;
    let t = Transfomation::new(
        translation.map(f32::to_bits),
        rotation.map(f32::to_bits),
        scale.to_bits(),
    );
    let got = eval(&t.as_matrix());

    let expected = (Matrix4::new_translation(&Vector3::new(
        translation[0],
        translation[1],
        translation[2],
    )) * Matrix4::new_rotation(Vector3::new(rotation[0], rotation[1], rotation[2])))
    .scale(scale);

    assert_eq!(got, expected);
}

#[test]
fn identity_transform_round_trips_to_identity_matrix() {
    let t = Transfomation::new(
        [F32_ZERO, F32_ZERO, F32_ZERO],
        [F32_ZERO, F32_ZERO, F32_ZERO],
        F32_ONE,
    );
    assert_eq!(eval(&t.as_matrix()), Matrix4::<f32>::identity());
}

#[test]
fn projection_aspect_ratio_is_width_over_height() {
    let camera = Camera::with_perpective(
        WindowDimensions::new(800, 600),
        Vec3::new(F32_ZERO, F32_ZERO, DEFAULT_EYE_Z),
        Vec3::new(F32_ZERO, F32_ZERO, F32_ZERO),
    );
    let expected = Perspective3::new(800.0f32 / 600.0f32, 45.0, 0.01, 1000.0);
    assert_eq!(eval(&camera.projection), *expected.as_matrix());

    // A window with a different aspect ratio gives a different projection.
    let wide = Camera::with_perpective(
        WindowDimensions::new(1920, 1080),
        Vec3::new(F32_ZERO, F32_ZERO, DEFAULT_EYE_Z),
        Vec3::new(F32_ZERO, F32_ZERO, F32_ZERO),
    );
    let expected_wide = Perspective3::new(1920.0f32 / 1080.0f32, 45.0, 0.01, 1000.0);
    assert_eq!(eval(&wide.projection), *expected_wide.as_matrix());
    assert_ne!(eval(&camera.projection), eval(&wide.projection));
}

#[test]
fn view_is_left_handed_look_at() {
    let eye = [0.0f32, 2.0, -5.0];
    let target = [1.0f32, 0.0, 0.0];
    let camera = Camera::with_perpective(
        WindowDimensions::new(800, 600),
        Vec3::new(eye[0].to_bits(), eye[1].to_bits(), eye[2].to_bits()),
        Vec3::new(target[0].to_bits(), target[1].to_bits(), target[2].to_bits()),
    );
    let expected = Isometry3::look_at_lh(
        &Point3::new(eye[0], eye[1], eye[2]),
        &Point3::new(target[0], target[1], target[2]),
        &Vector3::new(0.0, 1.0, 0.0),
    )
    .to_homogeneous();
    assert_eq!(eval(&camera.view), expected);
}

#[test]
fn calculate_mvp_is_projection_times_view_times_model() {
    let camera = Camera::with_perpective(
        WindowDimensions::new(800, 600),
        Vec3::new(F32_ZERO, F32_ZERO, DEFAULT_EYE_Z),
        Vec3::new(F32_ZERO, F32_ZERO, F32_ZERO),
    );
    let model = Transfomation::new(
        [2.0f32.to_bits(), F32_ZERO, F32_ZERO],
        [F32_ZERO, 0.25f32.to_bits(), F32_ZERO],
        F32_ONE,
    )
    .as_matrix();

    let projection = eval(&camera.projection);
    let view = eval(&camera.view);
    let model_m = eval(&model);

    let mvp = camera.calculate_mvp(model);
    assert_eq!(eval(&mvp), projection * view * model_m);
}

#[test]
fn mvp_of_no_matrix_is_identity() {
    assert_eq!(eval(&Matrix::Identity), Matrix4::<f32>::identity());
}
