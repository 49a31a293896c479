//! The example drawable: one triangle.
//!
//! The primitive owns its geometry buffers and the description of its GPU
//! pipeline.  The shader program itself is an asset of the shell; the
//! pipeline description here names its two entry points and pins everything
//! the core decides: the vertex-input layout, the color target's format and
//! the fixed-function state.

use crate::common::fresh_id;
use crate::matrix::{spec_resolve_mvp, Matrix, F32_NEG_ONE, F32_ONE, F32_ZERO};
use crate::render_pass_exec::{DrawCommand, RenderPassExecutor};
use crate::rendering_context::{
    BindGroupLayout, BindGroupLayoutEntry, Buffer, BufferUsages, Face, FrontFace, PolygonMode,
    PrimitiveState, PrimitiveTopology, RenderPipeline, RenderingContext, ShaderStages,
};
use crate::vertex::{spec_u16s_le, spec_vertices_bytes, GenericVertex, VertexStepMode};
use vstd::prelude::*;

verus! {

/// The number of indices one triangle draw covers.
pub const TRIANGLE_INDEX_COUNT: u32 = 3;

/// The three vertices of the triangle, in counter-clockwise order.
pub open spec fn spec_triangle_vertices() -> Seq<GenericVertex> {
    seq![
        GenericVertex {
            position: [F32_ZERO, F32_ZERO, F32_ZERO, F32_ONE],
            texture: [F32_ZERO, F32_ZERO],
            normal: [F32_ZERO, F32_ZERO, F32_ZERO, F32_ZERO],
        },
        GenericVertex {
            position: [F32_NEG_ONE, F32_NEG_ONE, F32_ZERO, F32_ONE],
            texture: [F32_ZERO, F32_ZERO],
            normal: [F32_ZERO, F32_ZERO, F32_ZERO, F32_ZERO],
        },
        GenericVertex {
            position: [F32_ONE, F32_NEG_ONE, F32_ZERO, F32_ONE],
            texture: [F32_ZERO, F32_ZERO],
            normal: [F32_ZERO, F32_ZERO, F32_ZERO, F32_ZERO],
        },
    ]
}

/// The triangle's index list.
pub open spec fn spec_triangle_indices() -> Seq<u16> {
    seq![0u16, 1u16, 2u16]
}

/// The fixed-function state every triangle pipeline carries: triangle-list
/// topology, counter-clockwise front faces, back-face culling, filled
/// polygons.
pub open spec fn spec_triangle_primitive_state() -> PrimitiveState {
    PrimitiveState {
        topology: PrimitiveTopology::TriangleList,
        front_face: FrontFace::Ccw,
        cull_mode: Some(Face::Back),
        polygon_mode: PolygonMode::Fill,
    }
}

/// The triangle pipeline's one binding: a uniform buffer at binding 0,
/// visible to the vertex stage, large enough for a 4x4 f32 matrix.
pub open spec fn spec_triangle_binding() -> BindGroupLayoutEntry {
    BindGroupLayoutEntry {
        binding: 0,
        visibility: ShaderStages::Vertex,
        has_dynamic_offset: false,
        min_binding_size: Some(64u64),
    }
}

/// A triangle that draws itself with its own pipeline and geometry.
pub struct TrianglePrimitive {
    pub uuid: u128,
    pub vertex_buffer: Buffer,
    pub index_buffer: Buffer,
    pub pipeline: RenderPipeline,
    pub bind_group_layout: BindGroupLayout,
}

impl TrianglePrimitive {
    /// Builds the triangle against a context with a surface: uploads its
    /// vertex and index buffers and describes its pipeline, whose color
    /// target takes the surface's first reported format.
    pub fn new(ctx: &RenderingContext) -> (r: Self)
        requires
            ctx.has_surface(),
            ctx.wf(),
        ensures
            r.vertex_buffer.usage == BufferUsages::Vertex,
            r.vertex_buffer.contents@ == spec_vertices_bytes(spec_triangle_vertices()),
            r.index_buffer.usage == BufferUsages::Index,
            r.index_buffer.contents@ == spec_u16s_le(spec_triangle_indices()),
            r.pipeline.vertex_entry@ == "vs_main"@,
            r.pipeline.fragment_entry@ == "fs_main"@,
            r.pipeline.vertex_layout.array_stride == 40,
            r.pipeline.vertex_layout.step_mode == VertexStepMode::Vertex,
            r.pipeline.vertex_layout.attributes@ == GenericVertex::spec_generic_attributes(),
            r.pipeline.target_format == ctx.spec_capabilities().formats@[0],
            r.pipeline.primitive == spec_triangle_primitive_state(),
            r.bind_group_layout.entries@ == seq![spec_triangle_binding()],
    {
        let mut vertecies: Vec<GenericVertex> = Vec::new();
        vertecies.push(
            GenericVertex {
                position: [F32_ZERO, F32_ZERO, F32_ZERO, F32_ONE],
                texture: [F32_ZERO, F32_ZERO],
                normal: [F32_ZERO, F32_ZERO, F32_ZERO, F32_ZERO],
            },
        );
        vertecies.push(
            GenericVertex {
                position: [F32_NEG_ONE, F32_NEG_ONE, F32_ZERO, F32_ONE],
                texture: [F32_ZERO, F32_ZERO],
                normal: [F32_ZERO, F32_ZERO, F32_ZERO, F32_ZERO],
            },
        );
        vertecies.push(
            GenericVertex {
                position: [F32_ONE, F32_NEG_ONE, F32_ZERO, F32_ONE],
                texture: [F32_ZERO, F32_ZERO],
                normal: [F32_ZERO, F32_ZERO, F32_ZERO, F32_ZERO],
            },
        );
        assert(vertecies@ =~= spec_triangle_vertices());

        let indicies: [u16; 3] = [0, 1, 2];
        assert(indicies@ =~= spec_triangle_indices());

        let vertex_buffer = ctx.create_vertex_buffer(&vertecies);
        let index_buffer = ctx.create_index_buffer(indicies.as_slice());

        let capabilities = ctx.surface_capabilities();
        let swapchain_format = capabilities.formats[0];

        let mut entries: Vec<BindGroupLayoutEntry> = Vec::new();
        entries.push(
            BindGroupLayoutEntry {
                binding: 0,
                visibility: ShaderStages::Vertex,
                has_dynamic_offset: false,
                min_binding_size: Some(64u64),
            },
        );
        assert(entries@ =~= seq![spec_triangle_binding()]);
        let bind_group_layout = BindGroupLayout { entries };

        let pipeline = RenderPipeline {
            vertex_entry: String::from_str("vs_main"),
            fragment_entry: String::from_str("fs_main"),
            vertex_layout: GenericVertex::description(),
            target_format: swapchain_format,
            primitive: PrimitiveState {
                topology: PrimitiveTopology::TriangleList,
                front_face: FrontFace::Ccw,
                cull_mode: Some(Face::Back),
                polygon_mode: PolygonMode::Fill,
            },
        };

        Self {
            uuid: fresh_id(),
            vertex_buffer,
            index_buffer,
            pipeline,
            bind_group_layout,
        }
    }

    /// The triangle's transform hook; this primitive has none.
    pub fn transform(&self) {
    }

    pub fn get_uuid(&self) -> (r: u128)
        ensures
            r == self.uuid,
    {
        self.uuid
    }

    /// Enqueues the triangle's one indexed draw: the given matrix — or the
    /// identity, if none is given — becomes the draw's uniform.
    pub fn draw(&self, rp_exec: &mut RenderPassExecutor, mvp: Option<Matrix>)
        ensures
            final(rp_exec).spec_frame() == old(rp_exec).spec_frame(),
            final(rp_exec).spec_commands() == old(rp_exec).spec_commands().push(
                DrawCommand {
                    drawable: self.uuid,
                    mvp: spec_resolve_mvp(mvp),
                    index_count: TRIANGLE_INDEX_COUNT,
                },
            ),
    {
        let m = match mvp {
            Some(m) => m,
            None => Matrix::Identity,
        };

        rp_exec.queue_object(
            DrawCommand { drawable: self.uuid, mvp: m, index_count: TRIANGLE_INDEX_COUNT },
        );
    }
}

} // verus!
