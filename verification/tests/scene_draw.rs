//! Scene traversal: one draw per object, in insertion order, each carrying
//! that object's model-view-projection matrix.

use nalgebra::{Isometry3, Matrix4, Perspective3, Point3, Vector3};
use renderer::{
    Matrix, RenderPassExecutor, RenderableObject, RenderingContext, Scene, SceneObject,
    Transfomation, Vec3, WindowDimensions, F32_ONE, F32_ZERO,
};

fn vector3(v: &Vec3) -> Vector3<f32> {
    Vector3::new(f32::from_bits(v.x), f32::from_bits(v.y), f32::from_bits(v.z))
}

fn point3(v: &Vec3) -> Point3<f32> {
    Point3::new(f32::from_bits(v.x), f32::from_bits(v.y), f32::from_bits(v.z))
}

fn eval(m: &Matrix) -> Matrix4<f32> {
    match m {
        Matrix::Identity => Matrix4::identity(),
        Matrix::Translation(v) => Matrix4::new_translation(&vector3(v)),
        Matrix::Rotation(v) => Matrix4::new_rotation(vector3(v)),
        Matrix::Perspective { width, height, fovy, znear, zfar } => Perspective3::new(
            *width as f32 / *height as f32,
            f32::from_bits(*fovy),
            f32::from_bits(*znear),
            f32::from_bits(*zfar),
        )
        .as_matrix()
        .clone(),
        Matrix::LookAt { eye, target, up } => {
            Isometry3::look_at_lh(&point3(eye), &point3(target), &vector3(up)).to_homogeneous()
        }
        Matrix::Product(a, b) => eval(a) * eval(b),
        Matrix::Scaled(inner, s) => eval(inner).scale(f32::from_bits(*s)),
    }
}

fn probe_object(uuid: u128, translation: [f32; 3], label: &str) -> SceneObject {
    SceneObject::new(
        RenderableObject::Probe { uuid },
        Transfomation::new(
            translation.map(f32::to_bits),
            [F32_ZERO, F32_ZERO, F32_ZERO],
            F32_ONE,
        ),
        label,
    )
}

#[test]
fn three_objects_draw_once_each_in_insertion_order() {
    let ctx = RenderingContext::new(None);
    let mut scene = Scene::new(ctx, WindowDimensions::new(800, 600));

    let translations = [[0.0f32, 0.0, 0.0], [1.0, 0.0, 0.0], [-1.0, 0.0, 0.0]];
    scene.add_object(probe_object(1, translations[0], "first"));
    scene.add_object(probe_object(2, translations[1], "second"));
    scene.add_object(probe_object(3, translations[2], "third"));

    let mut executor = RenderPassExecutor::headless();
    scene.draw(&mut executor);
    let submission = executor.submit();

    assert!(submission.frame.is_none());
    assert_eq!(submission.commands.len(), 3);
    let drawn: Vec<u128> = submission.commands.iter().map(|c| c.drawable).collect();
    assert_eq!(drawn, vec![1, 2, 3]);
    for command in &submission.commands {
        assert_eq!(command.index_count, 0);
    }

    // Each recorded matrix is projection * view * that object's model.
    let projection = *Perspective3::new(800.0f32 / 600.0, 45.0, 0.01, 1000.0).as_matrix();
    let view = Isometry3::look_at_lh(
        &Point3::new(0.0, 0.0, -5.0),
        &Point3::new(0.0, 0.0, 0.0),
        &Vector3::new(0.0, 1.0, 0.0),
    )
    .to_homogeneous();
    let mut evaluated: Vec<Matrix4<f32>> = Vec::new();
    for (command, translation) in submission.commands.iter().zip(translations.iter()) {
        let t = Vector3::new(translation[0], translation[1], translation[2]);
        let model = (Matrix4::new_translation(&t)
            * Matrix4::new_rotation(Vector3::zeros()))
        .scale(1.0);
        assert_eq!(eval(&command.mvp), projection * view * model);
        evaluated.push(eval(&command.mvp));
    }

    // The three matrices are distinct, and differ only in the translation
    // column.
    for i in 0..3 {
        for j in 0..3 {
            if i != j {
                assert_ne!(evaluated[i], evaluated[j]);
                for column in 0..3 {
                    assert_eq!(evaluated[i].column(column), evaluated[j].column(column));
                }
                assert_ne!(evaluated[i].column(3), evaluated[j].column(3));
            }
        }
    }
}

#[test]
fn draws_accumulate_on_one_executor() {
    let ctx = RenderingContext::new(None);
    let mut scene = Scene::new(ctx, WindowDimensions::new(800, 600));
    scene.add_object(probe_object(7, [0.0, 0.0, 0.0], "only"));

    let mut executor = RenderPassExecutor::headless();
    scene.draw(&mut executor);
    scene.draw(&mut executor);
    let submission = executor.submit();
    assert_eq!(submission.commands.len(), 2);
    assert_eq!(submission.commands[0].drawable, 7);
    assert_eq!(submission.commands[1].drawable, 7);
}

#[test]
fn empty_scene_records_nothing() {
    let ctx = RenderingContext::new(None);
    let scene = Scene::new(ctx, WindowDimensions::new(800, 600));
    let mut executor = RenderPassExecutor::headless();
    scene.draw(&mut executor);
    scene.update();
    let submission = executor.submit();
    assert!(submission.commands.is_empty());
}

#[test]
fn scene_objects_keep_their_labels_and_get_fresh_ids() {
    let first = probe_object(1, [0.0, 0.0, 0.0], "first");
    let second = probe_object(2, [0.0, 0.0, 0.0], "second");
    assert_eq!(first.label(), "first");
    assert_eq!(second.label(), "second");
    assert_ne!(first.id(), second.id());
}
