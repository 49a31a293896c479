//! The scene: a camera and the ordered collection of objects it draws.

use crate::camera::Camera;
use crate::common::{fresh_id, Transfomation, WindowDimensions};
use crate::matrix::{Matrix, Vec3, F32_ZERO};
use crate::render_pass_exec::{DrawCommand, RenderPassExecutor};
use crate::renderer::RenderableObject;
use crate::rendering_context::RenderingContext;
use vstd::prelude::*;

verus! {

/// The bit pattern of the f32 value -5.0: the default camera's eye sits at
/// (0, 0, -5).
pub const DEFAULT_EYE_Z: u32 = 0xC0A0_0000;

/// Where the default camera's eye sits.
pub open spec fn spec_default_eye() -> Vec3 {
    Vec3 { x: F32_ZERO, y: F32_ZERO, z: DEFAULT_EYE_Z }
}

/// One object of the scene: a drawable, its placement, and an identity and
/// label for diagnostics.  The model matrix is computed once at construction
/// and is immutable thereafter.
pub struct SceneObject {
    id: u128,
    label: String,
    renderable: RenderableObject,
    model: Matrix,
}

impl SceneObject {
    /// The object's identity, distinct from its drawable's.
    pub closed spec fn spec_id(&self) -> u128 {
        self.id
    }

    /// The object's label.
    pub closed spec fn spec_label(&self) -> Seq<char> {
        self.label@
    }

    /// The object's drawable.
    pub closed spec fn spec_renderable(&self) -> RenderableObject {
        self.renderable
    }

    /// The object's model matrix.
    pub closed spec fn spec_model(&self) -> Matrix {
        self.model
    }

    /// Pairs a drawable with its placement.
    pub fn new(
        renderable: RenderableObject,
        transformation: Transfomation,
        label: &str,
    ) -> (r: Self)
        ensures
            r.spec_label() == label@,
            r.spec_renderable() == renderable,
            r.spec_model() == transformation.spec_matrix(),
    {
        Self {
            id: fresh_id(),
            label: String::from_str(label),
            renderable,
            model: transformation.as_matrix(),
        }
    }

    pub fn id(&self) -> (r: u128)
        ensures
            r == self.spec_id(),
    {
        self.id
    }

    pub fn label(&self) -> (r: &String)
        ensures
            r@ == self.spec_label(),
    {
        &self.label
    }

    /// One object's draw: the camera combines with the object's model matrix,
    /// and the drawable records the result.
    fn draw(&self, camera: &Camera, executor: &mut RenderPassExecutor)
        ensures
            final(executor).spec_frame() == old(executor).spec_frame(),
            final(executor).spec_commands() == old(executor).spec_commands().push(
                self.spec_renderable().spec_command(Some(camera.spec_mvp(self.spec_model()))),
            ),
    {
        let mvp = camera.calculate_mvp(self.model.dup());
        self.renderable.draw(executor, Some(mvp));
    }
}

/// The scene, drawn in insertion order; order is otherwise not semantically
/// significant, and later objects' fragments may overwrite earlier ones.
pub struct Scene {
    camera: Camera,
    objects: Vec<SceneObject>,
    ctx: RenderingContext,
}

impl Scene {
    pub closed spec fn spec_camera(&self) -> Camera {
        self.camera
    }

    /// The objects, in insertion order.
    pub closed spec fn spec_objects(&self) -> Seq<SceneObject> {
        self.objects@
    }

    pub closed spec fn spec_ctx(&self) -> RenderingContext {
        self.ctx
    }

    /// The command one object records when this scene draws it.
    pub open spec fn spec_draw_command(&self, o: SceneObject) -> DrawCommand {
        o.spec_renderable().spec_command(Some(self.spec_camera().spec_mvp(o.spec_model())))
    }

    /// The whole recording of one draw of this scene: one command per object,
    /// in insertion order.
    pub open spec fn spec_draw_commands(&self) -> Seq<DrawCommand> {
        self.spec_objects().map_values(|o: SceneObject| self.spec_draw_command(o))
    }

    /// A scene over the shared context, with the default camera: the eye at
    /// (0, 0, -5) looking at the origin.
    pub fn new(ctx: RenderingContext, window_dimensions: WindowDimensions) -> (r: Self)
        ensures
            r.spec_camera().projection == Camera::spec_projection_for(window_dimensions),
            r.spec_camera().view == Camera::spec_view_for(spec_default_eye(), Vec3::spec_zeros()),
            r.spec_objects() == Seq::<SceneObject>::empty(),
            r.spec_ctx() == ctx,
    {
        Self {
            camera: Camera::with_perpective(
                window_dimensions,
                Vec3::new(F32_ZERO, F32_ZERO, DEFAULT_EYE_Z),
                Vec3::zeros(),
            ),
            objects: Vec::new(),
            ctx,
        }
    }

    /// The shared context the scene was built over.
    pub fn rendering_context(&self) -> (r: &RenderingContext)
        ensures
            *r == self.spec_ctx(),
    {
        &self.ctx
    }

    /// Appends to the draw list; no de-duplication, no capacity bound.
    pub fn add_object(&mut self, obj: SceneObject)
        ensures
            final(self).spec_camera() == old(self).spec_camera(),
            final(self).spec_ctx() == old(self).spec_ctx(),
            final(self).spec_objects() == old(self).spec_objects().push(obj),
    {
        self.objects.push(obj)
    }

    /// The traversal hook of the update pass.  Objects are immutable in this
    /// core, so the pass changes nothing and reports nothing.
    pub fn update(&self) {
    }

    /// Draws the scene: every object exactly once, in insertion order, each
    /// combined with the camera.
    pub fn draw(&self, executor: &mut RenderPassExecutor)
        ensures
            final(executor).spec_frame() == old(executor).spec_frame(),
            final(executor).spec_commands() == old(executor).spec_commands()
                + self.spec_draw_commands(),
    {
        let ghost orig_frame = executor.spec_frame();
        let ghost orig = executor.spec_commands();
        let mut i: usize = 0;
        while i < self.objects.len()
            invariant
                i <= self.objects.len(),
                executor.spec_frame() == orig_frame,
                executor.spec_commands() =~= orig + self.spec_objects().take(i as int).map_values(
                    |o: SceneObject| self.spec_draw_command(o),
                ),
            decreases self.objects.len() - i,
        {
            let obj = &self.objects[i];
            obj.draw(&self.camera, executor);
            proof {
                let s = self.spec_objects();
                assert(s.take((i + 1) as int) =~= s.take(i as int).push(s[i as int]));
                assert(s.take((i + 1) as int).map_values(|o: SceneObject| self.spec_draw_command(o))
                    =~= s.take(i as int).map_values(|o: SceneObject| self.spec_draw_command(o)).push(
                    self.spec_draw_command(s[i as int]),
                ));
            }
            i = i + 1;
        }
        proof {
            assert(self.spec_objects().take(self.objects.len() as int) =~= self.spec_objects());
            assert(executor.spec_commands() =~= orig + self.spec_draw_commands());
        }
    }
}

} // verus!
