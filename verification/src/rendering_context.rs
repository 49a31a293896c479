//! The graphics device model: the one piece of state every per-frame object
//! shares.
//!
//! The context tracks what the GPU-facing shell must know to drive the real
//! device: whether a presentation surface exists, which formats and alpha
//! modes that surface offers, and the swapchain configuration currently in
//! force.  Formats and alpha modes are carried as opaque tokens the shell maps
//! one-to-one onto the graphics API's values.  The shell performs device and
//! surface acquisition itself — that work is blocking hardware I/O — and keeps
//! this model in step with it.

use crate::vertex::{spec_u16s_le, lemma_u16s_le_push, ImplVertex, MemoryLayoutable};
use crate::common::WindowDimensions;
use vstd::prelude::*;

verus! {

/// What a GPU buffer is tagged for.
#[derive(Debug, Clone, Copy, PartialEq, Eq, Structural)]
pub enum BufferUsages {
    Vertex,
    Index,
    Uniform,
}

/// One GPU buffer: its usage tag and the exact bytes uploaded to it.
#[derive(Debug, Clone, PartialEq, Eq)]
pub struct Buffer {
    pub usage: BufferUsages,
    pub contents: Vec<u8>,
}

/// What the presentation surface reports it can do: its pixel formats and
/// alpha modes, each an opaque token, in the order the surface reports them.
#[derive(Debug, Clone, PartialEq, Eq)]
pub struct SurfaceCapabilities {
    pub formats: Vec<u32>,
    pub alpha_modes: Vec<u32>,
}

/// How swapchain images will be used.
#[derive(Debug, Clone, Copy, PartialEq, Eq, Structural)]
pub enum TextureUsages {
    RenderAttachment,
}

/// When finished frames reach the screen.  Fifo is vsync: no tearing, bounded
/// latency.
#[derive(Debug, Clone, Copy, PartialEq, Eq, Structural)]
pub enum PresentMode {
    Fifo,
}

/// The swapchain configuration in force.
#[derive(Debug, Clone, Copy, PartialEq, Eq, Structural)]
pub struct SurfaceConfiguration {
    pub usage: TextureUsages,
    pub format: u32,
    pub width: u32,
    pub height: u32,
    pub present_mode: PresentMode,
    pub alpha_mode: u32,
}

/// One acquired swapchain image, identified by the dimensions it was
/// configured with.
#[derive(Debug, Clone, Copy, PartialEq, Eq, Structural)]
pub struct SurfaceTexture {
    pub width: u32,
    pub height: u32,
}

/// How a pipeline assembles vertices into primitives.
#[derive(Debug, Clone, Copy, PartialEq, Eq, Structural)]
pub enum PrimitiveTopology {
    TriangleList,
}

/// Which winding order a pipeline takes as front-facing.
#[derive(Debug, Clone, Copy, PartialEq, Eq, Structural)]
pub enum FrontFace {
    Ccw,
}

/// Which side of a primitive a pipeline culls.
#[derive(Debug, Clone, Copy, PartialEq, Eq, Structural)]
pub enum Face {
    Back,
}

/// How a pipeline rasterizes polygons.
#[derive(Debug, Clone, Copy, PartialEq, Eq, Structural)]
pub enum PolygonMode {
    Fill,
}

/// The fixed-function primitive state of a pipeline.
#[derive(Debug, Clone, Copy, PartialEq, Eq, Structural)]
pub struct PrimitiveState {
    pub topology: PrimitiveTopology,
    pub front_face: FrontFace,
    pub cull_mode: Option<Face>,
    pub polygon_mode: PolygonMode,
}

/// Which shader stages a binding is visible to.
#[derive(Debug, Clone, Copy, PartialEq, Eq, Structural)]
pub enum ShaderStages {
    Vertex,
}

/// One entry of a bind group layout: a uniform buffer binding.
#[derive(Debug, Clone, Copy, PartialEq, Eq, Structural)]
pub struct BindGroupLayoutEntry {
    pub binding: u32,
    pub visibility: ShaderStages,
    pub has_dynamic_offset: bool,
    pub min_binding_size: Option<u64>,
}

/// The resource-binding layout of a pipeline.
#[derive(Debug, Clone, PartialEq, Eq)]
pub struct BindGroupLayout {
    pub entries: Vec<BindGroupLayoutEntry>,
}

/// One render pipeline: the shader entry points, the vertex-input layout, the
/// color target's format token and the fixed-function state.  No depth or
/// stencil and no multisampling in this core.
#[derive(Debug, Clone, PartialEq, Eq)]
pub struct RenderPipeline {
    pub vertex_entry: String,
    pub fragment_entry: String,
    pub vertex_layout: crate::vertex::VertexBufferLayout,
    pub target_format: u32,
    pub primitive: PrimitiveState,
}

/// The surface half of a context: what it can do and how it is configured.
#[derive(Debug, Clone)]
pub struct SurfaceState {
    pub capabilities: SurfaceCapabilities,
    pub config: SurfaceConfiguration,
}

/// The swapchain configuration that a surface with the given capabilities and
/// a window of the given size call for: the first reported format, the first
/// reported alpha mode, vsync'd presentation, render-attachment usage.
pub open spec fn spec_swapchain_config(
    capabilities: &SurfaceCapabilities,
    window_dimension: WindowDimensions,
) -> SurfaceConfiguration {
    SurfaceConfiguration {
        usage: TextureUsages::RenderAttachment,
        format: capabilities.formats@[0],
        width: window_dimension.width,
        height: window_dimension.height,
        present_mode: PresentMode::Fifo,
        alpha_mode: capabilities.alpha_modes@[0],
    }
}

/// The graphics device and its optional presentation surface.  Exactly one
/// instance should exist during program execution; it is read-only from the
/// perspective of drawing, and only swapchain reconfiguration changes it.
#[derive(Debug, Clone)]
pub struct RenderingContext {
    surface: Option<SurfaceState>,
}

impl RenderingContext {
    /// The surface state, if a surface exists.
    pub closed spec fn spec_surface(&self) -> Option<SurfaceState> {
        self.surface
    }

    /// Whether a presentation surface exists.  A context without one is
    /// headless: it can create buffers but can never acquire a frame.
    pub open spec fn has_surface(&self) -> bool {
        self.spec_surface() is Some
    }

    /// The capabilities of the surface.
    pub open spec fn spec_capabilities(&self) -> SurfaceCapabilities
        recommends
            self.has_surface(),
    {
        self.spec_surface()->Some_0.capabilities
    }

    /// The swapchain configuration in force.
    pub open spec fn spec_config(&self) -> SurfaceConfiguration
        recommends
            self.has_surface(),
    {
        self.spec_surface()->Some_0.config
    }

    /// A context is well formed when its surface, if any, reports at least one
    /// format and one alpha mode, and its configuration was chosen by the
    /// swapchain rule.
    pub open spec fn wf(&self) -> bool {
        self.spec_surface() matches Some(s) ==> {
            &&& s.capabilities.formats@.len() > 0
            &&& s.capabilities.alpha_modes@.len() > 0
            &&& s.config.usage == TextureUsages::RenderAttachment
            &&& s.config.format == s.capabilities.formats@[0]
            &&& s.config.present_mode == PresentMode::Fifo
            &&& s.config.alpha_mode == s.capabilities.alpha_modes@[0]
        }
    }

    /// The state of a freshly opened device.  The surface's capabilities are
    /// handed in where a window exists; `None` builds a headless context, as
    /// tests do.  With a surface, an initial swapchain is configured at the
    /// default dimensions.
    pub fn new(surface: Option<SurfaceCapabilities>) -> (r: Self)
        requires
            surface matches Some(c) ==> c.formats@.len() > 0 && c.alpha_modes@.len() > 0,
        ensures
            r.wf(),
            r.has_surface() <==> surface is Some,
            surface matches Some(c) ==> {
                &&& r.spec_capabilities().formats@ == c.formats@
                &&& r.spec_capabilities().alpha_modes@ == c.alpha_modes@
                &&& r.spec_config() == spec_swapchain_config(
                    &c,
                    WindowDimensions { width: 800, height: 600 },
                )
            },
    {
        match surface {
            Some(capabilities) => {
                let config = Self::create_swapchain(&capabilities, WindowDimensions::default());
                Self { surface: Some(SurfaceState { capabilities, config }) }
            },
            None => Self { surface: None },
        }
    }

    /// Chooses the swapchain configuration for the given capabilities and
    /// window size.
    fn create_swapchain(
        capabilities: &SurfaceCapabilities,
        window_dimension: WindowDimensions,
    ) -> (c: SurfaceConfiguration)
        requires
            capabilities.formats@.len() > 0,
            capabilities.alpha_modes@.len() > 0,
        ensures
            c == spec_swapchain_config(capabilities, window_dimension),
    {
        let swapchain_format = capabilities.formats[0];

        SurfaceConfiguration {
            usage: TextureUsages::RenderAttachment,
            format: swapchain_format,
            width: window_dimension.width,
            height: window_dimension.height,
            present_mode: PresentMode::Fifo,
            alpha_mode: capabilities.alpha_modes[0],
        }
    }

    /// Whether a presentation surface exists, as executable code can ask it.
    pub fn surface_exists(&self) -> (r: bool)
        ensures
            r == self.has_surface(),
    {
        self.surface.is_some()
    }

    /// The swapchain configuration in force.  Requires a surface.
    pub fn surface_configuration(&self) -> (r: SurfaceConfiguration)
        requires
            self.has_surface(),
        ensures
            r == self.spec_config(),
    {
        match &self.surface {
            Some(state) => state.config,
            None => {
                proof {
                    assert(false);
                }
                SurfaceConfiguration {
                    usage: TextureUsages::RenderAttachment,
                    format: 0,
                    width: 0,
                    height: 0,
                    present_mode: PresentMode::Fifo,
                    alpha_mode: 0,
                }
            },
        }
    }

    /// Destroys and reconfigures the swapchain for the given window size.
    /// Must run before the next frame acquisition after any resize.
    pub fn recreate_swapchain(&mut self, wd: WindowDimensions)
        requires
            old(self).has_surface(),
            old(self).wf(),
        ensures
            final(self).wf(),
            final(self).has_surface(),
            final(self).spec_capabilities() == old(self).spec_capabilities(),
            final(self).spec_config() == spec_swapchain_config(&old(self).spec_capabilities(), wd),
    {
        match &mut self.surface {
            Some(state) => {
                state.config = Self::create_swapchain(&state.capabilities, wd);
            },
            None => {
                proof {
                    assert(false);
                }
            },
        }
    }

    /// Uploads a byte-packed copy of the vertices to a buffer tagged for
    /// vertex use.  Works on a headless context too.
    pub fn create_vertex_buffer<V: ImplVertex>(&self, data: &Vec<V>) -> (r: Buffer)
        ensures
            r.usage == BufferUsages::Vertex,
            r.contents@ == data.spec_memory(),
    {
        Buffer { usage: BufferUsages::Vertex, contents: data.layout_memory() }
    }

    /// Uploads the 16-bit indices, little-endian, to a buffer tagged for
    /// index use.  Works on a headless context too.
    pub fn create_index_buffer(&self, data: &[u16]) -> (r: Buffer)
        ensures
            r.usage == BufferUsages::Index,
            r.contents@ == spec_u16s_le(data@),
    {
        let mut contents: Vec<u8> = Vec::new();
        assert(data@.take(0) =~= Seq::<u16>::empty());
        let mut i: usize = 0;
        while i < data.len()
            invariant
                i <= data.len(),
                contents@ == spec_u16s_le(data@.take(i as int)),
            decreases data.len() - i,
        {
            crate::vertex::push_u16_le(&mut contents, data[i]);
            proof {
                assert(data@.take(i as int).push(data@[i as int]) =~= data@.take((i + 1) as int));
                lemma_u16s_le_push(data@.take(i as int), data@[i as int]);
            }
            i = i + 1;
        }
        assert(data@.take(data.len() as int) =~= data@);
        Buffer { usage: BufferUsages::Index, contents }
    }

    /// Uploads one small fixed-layout value to a buffer tagged for uniform
    /// use.  Works on a headless context too.
    pub fn create_uniform_buffer<V: ImplVertex>(&self, data: V) -> (r: Buffer)
        ensures
            r.usage == BufferUsages::Uniform,
            r.contents@ == data.spec_bytes(),
    {
        Buffer { usage: BufferUsages::Uniform, contents: data.raw() }
    }

    /// Blocks until the next presentable image is available.  Requires a
    /// surface: a headless context can never acquire a frame.
    pub fn current_frame(&self) -> (r: SurfaceTexture)
        requires
            self.has_surface(),
        ensures
            r.width == self.spec_config().width,
            r.height == self.spec_config().height,
    {
        match &self.surface {
            Some(state) => SurfaceTexture {
                width: state.config.width,
                height: state.config.height,
            },
            None => {
                proof {
                    assert(false);
                }
                SurfaceTexture { width: 0, height: 0 }
            },
        }
    }

    /// What the surface reports it can do.  Requires a surface.
    pub fn surface_capabilities(&self) -> (r: SurfaceCapabilities)
        requires
            self.has_surface(),
        ensures
            r.formats@ == self.spec_capabilities().formats@,
            r.alpha_modes@ == self.spec_capabilities().alpha_modes@,
    {
        match &self.surface {
            Some(state) => SurfaceCapabilities {
                formats: clone_tokens(&state.capabilities.formats),
                alpha_modes: clone_tokens(&state.capabilities.alpha_modes),
            },
            None => {
                proof {
                    assert(false);
                }
                SurfaceCapabilities { formats: Vec::new(), alpha_modes: Vec::new() }
            },
        }
    }
}

/// An element-wise copy of a token list.
fn clone_tokens(v: &Vec<u32>) -> (r: Vec<u32>)
    ensures
        r@ == v@,
{
    let mut r: Vec<u32> = Vec::new();
    let mut i: usize = 0;
    while i < v.len()
        invariant
            i <= v.len(),
            r@ == v@.take(i as int),
        decreases v.len() - i,
    {
        r.push(v[i]);
        proof {
            assert(v@.take(i as int).push(v@[i as int]) =~= v@.take((i + 1) as int));
        }
        i = i + 1;
    }
    assert(v@.take(v.len() as int) =~= v@);
    r
}

} // verus!
