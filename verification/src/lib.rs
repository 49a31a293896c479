//! A minimal real-time 3D rendering core.
//!
//! The library owns the verifiable part of the renderer: the scene graph, the
//! camera, per-object transformations, the vertex-layout contract, the
//! swapchain configuration rules and the per-frame draw traversal.  Everything
//! the machine's GPU or window system must do for real — device acquisition,
//! buffer uploads, event delivery, floating-point matrix evaluation — is done
//! by an unverified shell around the library, which hands plain values in and
//! carries the library's decisions out.

mod camera;
mod common;
mod matrix;
mod primitives;
mod render_pass_exec;
mod renderer;
mod rendering_context;
mod scene;
mod vertex;

pub use camera::{Camera, FOV_Y, Z_FAR, Z_NEAR};
pub use common::{Transfomation, WindowDimensions};
pub use matrix::{Matrix, Vec3, F32_NEG_ONE, F32_ONE, F32_ZERO};
pub use primitives::{TrianglePrimitive, TRIANGLE_INDEX_COUNT};
pub use render_pass_exec::{DrawCommand, FrameSubmission, RenderPassExecutor};
pub use renderer::{handle_event, render_frame, LoopAction, LoopEvent, RenderableObject};
pub use rendering_context::{
    BindGroupLayout, BindGroupLayoutEntry, Face, FrontFace, PolygonMode, PrimitiveState,
    PrimitiveTopology, RenderPipeline, ShaderStages,
};
pub use rendering_context::{
    Buffer, BufferUsages, PresentMode, RenderingContext, SurfaceCapabilities, SurfaceConfiguration,
    SurfaceState, SurfaceTexture, TextureUsages,
};
pub use scene::{Scene, SceneObject, DEFAULT_EYE_Z};
pub use vertex::{
    GenericVertex, ImplVertex, MVPBuff, MemoryLayoutable, VertexAttribute, VertexBufferLayout,
    VertexFormat, VertexStepMode,
};
