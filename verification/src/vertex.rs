//! Vertex records and their byte layout.
//!
//! The byte image of a vertex is a contract shared between the packing done
//! here and the vertex-input description handed to the GPU pipeline: position
//! at byte offset 0 (four f32 components), texture coordinates at offset 16
//! (two components), normal at offset 24 (four components), 40 bytes in all.
//! Scalar components are carried as f32 bit patterns and serialized
//! little-endian, which is exactly the in-memory image of the corresponding
//! `repr(C)` float record on the machines the renderer runs on.

use vstd::prelude::*;

verus! {

/// The little-endian bytes of one 32-bit value.
pub open spec fn spec_u32_le(x: u32) -> Seq<u8> {
    seq![
        (x & 0xFF) as u8,
        ((x >> 8) & 0xFF) as u8,
        ((x >> 16) & 0xFF) as u8,
        ((x >> 24) & 0xFF) as u8,
    ]
}

/// The little-endian bytes of one 16-bit value.
pub open spec fn spec_u16_le(x: u16) -> Seq<u8> {
    seq![(x & 0xFF) as u8, ((x >> 8) & 0xFF) as u8]
}

/// The concatenated little-endian bytes of a sequence of 32-bit values.
pub open spec fn spec_u32s_le(s: Seq<u32>) -> Seq<u8>
    decreases s.len(),
{
    if s.len() == 0 {
        Seq::empty()
    } else {
        spec_u32_le(s[0]) + spec_u32s_le(s.drop_first())
    }
}

/// The concatenated little-endian bytes of a sequence of 16-bit values.
pub open spec fn spec_u16s_le(s: Seq<u16>) -> Seq<u8>
    decreases s.len(),
{
    if s.len() == 0 {
        Seq::empty()
    } else {
        spec_u16_le(s[0]) + spec_u16s_le(s.drop_first())
    }
}

pub proof fn lemma_u32s_le_push(s: Seq<u32>, x: u32)
    ensures
        spec_u32s_le(s.push(x)) == spec_u32s_le(s) + spec_u32_le(x),
    decreases s.len(),
{
    reveal_with_fuel(spec_u32s_le, 2);
    let p = s.push(x);
    if s.len() == 0 {
        assert(p[0] == x);
        assert(p.drop_first() =~= Seq::<u32>::empty());
        assert(spec_u32s_le(p) =~= spec_u32s_le(s) + spec_u32_le(x));
    } else {
        assert(p[0] == s[0]);
        assert(p.drop_first() =~= s.drop_first().push(x));
        lemma_u32s_le_push(s.drop_first(), x);
        assert(spec_u32s_le(p) =~= spec_u32s_le(s) + spec_u32_le(x));
    }
}

pub proof fn lemma_u16s_le_push(s: Seq<u16>, x: u16)
    ensures
        spec_u16s_le(s.push(x)) == spec_u16s_le(s) + spec_u16_le(x),
    decreases s.len(),
{
    reveal_with_fuel(spec_u16s_le, 2);
    let p = s.push(x);
    if s.len() == 0 {
        assert(p[0] == x);
        assert(p.drop_first() =~= Seq::<u16>::empty());
        assert(spec_u16s_le(p) =~= spec_u16s_le(s) + spec_u16_le(x));
    } else {
        assert(p[0] == s[0]);
        assert(p.drop_first() =~= s.drop_first().push(x));
        lemma_u16s_le_push(s.drop_first(), x);
        assert(spec_u16s_le(p) =~= spec_u16s_le(s) + spec_u16_le(x));
    }
}

/// Appends the little-endian bytes of `x`.
pub fn push_u32_le(out: &mut Vec<u8>, x: u32)
    ensures
        final(out)@ == old(out)@ + spec_u32_le(x),
{
    out.push((x & 0xFF) as u8);
    out.push(((x >> 8) & 0xFF) as u8);
    out.push(((x >> 16) & 0xFF) as u8);
    out.push(((x >> 24) & 0xFF) as u8);
    assert(out@ =~= old(out)@ + spec_u32_le(x));
}

/// Appends the little-endian bytes of `x`.
pub fn push_u16_le(out: &mut Vec<u8>, x: u16)
    ensures
        final(out)@ == old(out)@ + spec_u16_le(x),
{
    out.push((x & 0xFF) as u8);
    out.push(((x >> 8) & 0xFF) as u8);
    assert(out@ =~= old(out)@ + spec_u16_le(x));
}

/// How vertex data advances through a buffer.
#[derive(Debug, Clone, Copy, PartialEq, Eq, Structural)]
pub enum VertexStepMode {
    Vertex,
    Instance,
}

/// The on-buffer format of one vertex attribute.
#[derive(Debug, Clone, Copy, PartialEq, Eq, Structural)]
pub enum VertexFormat {
    Float32x2,
    Float32x4,
}

/// The byte width of one attribute format.
pub open spec fn spec_format_width(f: VertexFormat) -> int {
    match f {
        VertexFormat::Float32x2 => 8,
        VertexFormat::Float32x4 => 16,
    }
}

/// One attribute of a vertex buffer's layout.
#[derive(Debug, Clone, Copy, PartialEq, Eq, Structural)]
pub struct VertexAttribute {
    pub offset: u64,
    pub shader_location: u32,
    pub format: VertexFormat,
}

/// The layout of one vertex buffer, as the GPU pipeline will read it.
#[derive(Debug, Clone, PartialEq, Eq)]
pub struct VertexBufferLayout {
    pub array_stride: u64,
    pub step_mode: VertexStepMode,
    pub attributes: Vec<VertexAttribute>,
}

/// A record that knows its own byte image and buffer layout.
pub trait ImplVertex: Sized {
    /// The byte image of the record.
    spec fn spec_bytes(&self) -> Seq<u8>;

    /// The stride the record's layout declares.
    spec fn spec_stride(&self) -> u64;

    /// The attributes the record's layout declares.
    spec fn spec_attributes(&self) -> Seq<VertexAttribute>;

    fn size(&self) -> (r: usize)
        ensures
            r == self.spec_bytes().len(),
    ;

    fn description(&self) -> (r: VertexBufferLayout)
        ensures
            r.array_stride == self.spec_stride(),
            r.step_mode == VertexStepMode::Vertex,
            r.attributes@ == self.spec_attributes(),
    ;

    fn raw(&self) -> (r: Vec<u8>)
        ensures
            r@ == self.spec_bytes(),
    ;
}

/// A general-purpose vertex: position, texture coordinates and normal, each
/// component an f32 bit pattern.
#[derive(Debug, Clone, Copy)]
pub struct GenericVertex {
    pub position: [u32; 4],
    pub texture: [u32; 2],
    pub normal: [u32; 4],
}

impl Default for GenericVertex {
    /// The all-zero vertex.
    fn default() -> (r: Self)
        ensures
            r.position@ =~= seq![0u32, 0, 0, 0],
            r.texture@ =~= seq![0u32, 0],
            r.normal@ =~= seq![0u32, 0, 0, 0],
    {
        Self { position: [0, 0, 0, 0], texture: [0, 0], normal: [0, 0, 0, 0] }
    }
}

impl GenericVertex {
    /// The bytes of the position attribute.
    pub open spec fn spec_position_bytes(&self) -> Seq<u8> {
        spec_u32s_le(self.position@)
    }

    /// The bytes of the texture-coordinate attribute.
    pub open spec fn spec_texture_bytes(&self) -> Seq<u8> {
        spec_u32s_le(self.texture@)
    }

    /// The bytes of the normal attribute.
    pub open spec fn spec_normal_bytes(&self) -> Seq<u8> {
        spec_u32s_le(self.normal@)
    }

    /// The attribute list of the generic vertex layout: position at offset 0,
    /// texture coordinates at offset 16, normal at offset 24.
    pub open spec fn spec_generic_attributes() -> Seq<VertexAttribute> {
        seq![
            VertexAttribute { offset: 0, shader_location: 0, format: VertexFormat::Float32x4 },
            VertexAttribute { offset: 16, shader_location: 1, format: VertexFormat::Float32x2 },
            VertexAttribute { offset: 24, shader_location: 2, format: VertexFormat::Float32x4 },
        ]
    }

    /// The layout shared by every `GenericVertex` buffer.
    pub fn description() -> (r: VertexBufferLayout)
        ensures
            r.array_stride == 40,
            r.step_mode == VertexStepMode::Vertex,
            r.attributes@ == GenericVertex::spec_generic_attributes(),
    {
        let mut attributes: Vec<VertexAttribute> = Vec::new();
        attributes.push(
            VertexAttribute { offset: 0, shader_location: 0, format: VertexFormat::Float32x4 },
        );
        attributes.push(
            VertexAttribute { offset: 16, shader_location: 1, format: VertexFormat::Float32x2 },
        );
        attributes.push(
            VertexAttribute { offset: 24, shader_location: 2, format: VertexFormat::Float32x4 },
        );
        assert(attributes@ =~= GenericVertex::spec_generic_attributes());
        VertexBufferLayout {
            array_stride: 40,
            step_mode: VertexStepMode::Vertex,
            attributes,
        }
    }
}

impl ImplVertex for GenericVertex {
    open spec fn spec_bytes(&self) -> Seq<u8> {
        self.spec_position_bytes() + self.spec_texture_bytes() + self.spec_normal_bytes()
    }

    open spec fn spec_stride(&self) -> u64 {
        40
    }

    open spec fn spec_attributes(&self) -> Seq<VertexAttribute> {
        GenericVertex::spec_generic_attributes()
    }

    fn size(&self) -> (r: usize)
    {
        proof {
            lemma_generic_vertex_bytes_len(*self);
        }
        40
    }

    fn description(&self) -> (r: VertexBufferLayout) {
        GenericVertex::description()
    }

    fn raw(&self) -> (r: Vec<u8>) {
        let mut out: Vec<u8> = Vec::new();
        push_u32_le(&mut out, self.position[0]);
        push_u32_le(&mut out, self.position[1]);
        push_u32_le(&mut out, self.position[2]);
        push_u32_le(&mut out, self.position[3]);
        push_u32_le(&mut out, self.texture[0]);
        push_u32_le(&mut out, self.texture[1]);
        push_u32_le(&mut out, self.normal[0]);
        push_u32_le(&mut out, self.normal[1]);
        push_u32_le(&mut out, self.normal[2]);
        push_u32_le(&mut out, self.normal[3]);
        proof {
            lemma_u32s_le_four(self.position@);
            lemma_u32s_le_two(self.texture@);
            lemma_u32s_le_four(self.normal@);
        }
        assert(out@ =~= self.spec_bytes());
        out
    }
}

/// Unfolds the byte image of a four-element sequence.
proof fn lemma_u32s_le_four(s: Seq<u32>)
    requires
        s.len() == 4,
    ensures
        spec_u32s_le(s) == spec_u32_le(s[0]) + spec_u32_le(s[1]) + spec_u32_le(s[2])
            + spec_u32_le(s[3]),
{
    reveal_with_fuel(spec_u32s_le, 5);
    let s1 = s.drop_first();
    let s2 = s1.drop_first();
    let s3 = s2.drop_first();
    assert(s1[0] == s[1] && s2[0] == s[2] && s3[0] == s[3]);
    assert(s3.drop_first() =~= Seq::<u32>::empty());
    assert(spec_u32s_le(s) =~= spec_u32_le(s[0]) + spec_u32_le(s[1]) + spec_u32_le(s[2])
        + spec_u32_le(s[3]));
}

/// Unfolds the byte image of a two-element sequence.
proof fn lemma_u32s_le_two(s: Seq<u32>)
    requires
        s.len() == 2,
    ensures
        spec_u32s_le(s) == spec_u32_le(s[0]) + spec_u32_le(s[1]),
{
    reveal_with_fuel(spec_u32s_le, 3);
    let s1 = s.drop_first();
    assert(s1[0] == s[1]);
    assert(s1.drop_first() =~= Seq::<u32>::empty());
    assert(spec_u32s_le(s) =~= spec_u32_le(s[0]) + spec_u32_le(s[1]));
}

/// The byte image of a generic vertex is exactly one stride long.
pub proof fn lemma_generic_vertex_bytes_len(v: GenericVertex)
    ensures
        v.spec_bytes().len() == 40,
{
    lemma_u32s_le_four(v.position@);
    lemma_u32s_le_two(v.texture@);
    lemma_u32s_le_four(v.normal@);
}

/// The byte image of a sequence of 32-bit values is four bytes per value.
pub proof fn lemma_u32s_le_len(s: Seq<u32>)
    ensures
        spec_u32s_le(s).len() == 4 * s.len(),
    decreases s.len(),
{
    if s.len() > 0 {
        lemma_u32s_le_len(s.drop_first());
    }
}

/// The uniform payload of one draw: an evaluated matrix, its sixteen
/// column-major components as f32 bit patterns.
#[derive(Debug, Clone, Copy)]
pub struct MVPBuff {
    pub matrix: [u32; 16],
}

impl MVPBuff {
    /// Wraps an evaluated matrix, given as the column-major bit patterns of
    /// its components.
    pub fn from_mat4(mat: [u32; 16]) -> (r: Self)
        ensures
            r.matrix@ == mat@,
    {
        Self { matrix: mat }
    }

    /// The attribute list of the matrix layout: one shader location per
    /// column.
    pub open spec fn spec_mvp_attributes() -> Seq<VertexAttribute> {
        seq![
            VertexAttribute { offset: 0, shader_location: 0, format: VertexFormat::Float32x4 },
            VertexAttribute { offset: 4, shader_location: 1, format: VertexFormat::Float32x4 },
            VertexAttribute { offset: 8, shader_location: 2, format: VertexFormat::Float32x4 },
            VertexAttribute { offset: 12, shader_location: 3, format: VertexFormat::Float32x4 },
        ]
    }

    /// The layout shared by every `MVPBuff` buffer.
    pub fn description() -> (r: VertexBufferLayout)
        ensures
            r.array_stride == 64,
            r.step_mode == VertexStepMode::Vertex,
            r.attributes@ == MVPBuff::spec_mvp_attributes(),
    {
        let mut attributes: Vec<VertexAttribute> = Vec::new();
        attributes.push(
            VertexAttribute { offset: 0, shader_location: 0, format: VertexFormat::Float32x4 },
        );
        attributes.push(
            VertexAttribute { offset: 4, shader_location: 1, format: VertexFormat::Float32x4 },
        );
        attributes.push(
            VertexAttribute { offset: 8, shader_location: 2, format: VertexFormat::Float32x4 },
        );
        attributes.push(
            VertexAttribute { offset: 12, shader_location: 3, format: VertexFormat::Float32x4 },
        );
        assert(attributes@ =~= MVPBuff::spec_mvp_attributes());
        VertexBufferLayout {
            array_stride: 64,
            step_mode: VertexStepMode::Vertex,
            attributes,
        }
    }
}

impl ImplVertex for MVPBuff {
    open spec fn spec_bytes(&self) -> Seq<u8> {
        spec_u32s_le(self.matrix@)
    }

    open spec fn spec_stride(&self) -> u64 {
        64
    }

    open spec fn spec_attributes(&self) -> Seq<VertexAttribute> {
        MVPBuff::spec_mvp_attributes()
    }

    fn size(&self) -> (r: usize) {
        proof {
            lemma_u32s_le_len(self.matrix@);
        }
        64
    }

    fn description(&self) -> (r: VertexBufferLayout) {
        MVPBuff::description()
    }

    fn raw(&self) -> (r: Vec<u8>) {
        let mut out: Vec<u8> = Vec::new();
        assert(self.matrix@.take(0) =~= Seq::<u32>::empty());
        let mut i: usize = 0;
        while i < 16
            invariant
                i <= 16,
                out@ == spec_u32s_le(self.matrix@.take(i as int)),
            decreases 16 - i,
        {
            push_u32_le(&mut out, self.matrix[i]);
            proof {
                assert(self.matrix@.take(i as int).push(self.matrix@[i as int]) =~= self
                    .matrix@
                    .take((i + 1) as int));
                lemma_u32s_le_push(self.matrix@.take(i as int), self.matrix@[i as int]);
            }
            i = i + 1;
        }
        assert(self.matrix@.take(16) =~= self.matrix@);
        out
    }
}

/// The concatenated byte images of a sequence of vertex records.
pub open spec fn spec_vertices_bytes<V: ImplVertex>(s: Seq<V>) -> Seq<u8>
    decreases s.len(),
{
    if s.len() == 0 {
        Seq::empty()
    } else {
        s[0].spec_bytes() + spec_vertices_bytes(s.drop_first())
    }
}

pub proof fn lemma_vertices_bytes_push<V: ImplVertex>(s: Seq<V>, v: V)
    ensures
        spec_vertices_bytes(s.push(v)) == spec_vertices_bytes(s) + v.spec_bytes(),
    decreases s.len(),
{
    reveal_with_fuel(spec_vertices_bytes, 2);
    let p = s.push(v);
    if s.len() == 0 {
        assert(p.drop_first() =~= Seq::<V>::empty());
        assert(spec_vertices_bytes(p) =~= spec_vertices_bytes(s) + v.spec_bytes());
    } else {
        assert(p.drop_first() =~= s.drop_first().push(v));
        lemma_vertices_bytes_push(s.drop_first(), v);
        assert(spec_vertices_bytes(p) =~= spec_vertices_bytes(s) + v.spec_bytes());
    }
}

/// A collection whose elements can be laid out back-to-back in GPU memory.
pub trait MemoryLayoutable {
    /// The byte image of the whole collection.
    spec fn spec_memory(&self) -> Seq<u8>;

    fn layout_memory(&self) -> (r: Vec<u8>)
        ensures
            r@ == self.spec_memory(),
    ;
}

impl<V: ImplVertex> MemoryLayoutable for Vec<V> {
    open spec fn spec_memory(&self) -> Seq<u8> {
        spec_vertices_bytes(self@)
    }

    fn layout_memory(&self) -> (r: Vec<u8>) {
        let mut out: Vec<u8> = Vec::new();
        assert(self@.take(0) =~= Seq::<V>::empty());
        let mut i: usize = 0;
        while i < self.len()
            invariant
                i <= self.len(),
                out@ == spec_vertices_bytes(self@.take(i as int)),
            decreases self.len() - i,
        {
            let mut bytes = self[i].raw();
            out.append(&mut bytes);
            proof {
                assert(self@.take(i as int).push(self@[i as int]) =~= self@.take((i + 1) as int));
                lemma_vertices_bytes_push(self@.take(i as int), self@[i as int]);
            }
            i = i + 1;
        }
        assert(self@.take(self.len() as int) =~= self@);
        out
    }
}

/// The layout agreement contract: for every generic vertex, each attribute the
/// layout declares covers exactly the bytes the packing wrote for the
/// corresponding field, and the declared stride is exactly the length of the
/// byte image.
pub proof fn lemma_generic_vertex_layout_agreement(v: GenericVertex)
    ensures
        v.spec_bytes().len() == v.spec_stride(),
        v.spec_bytes().subrange(0, 16) == v.spec_position_bytes(),
        v.spec_bytes().subrange(16, 24) == v.spec_texture_bytes(),
        v.spec_bytes().subrange(24, 40) == v.spec_normal_bytes(),
        forall|i: int|
            0 <= i < v.spec_attributes().len() ==> (#[trigger] v.spec_attributes()[i]).offset
                + spec_format_width(v.spec_attributes()[i].format) <= v.spec_stride(),
{
    lemma_generic_vertex_bytes_len(v);
    lemma_u32s_le_four(v.position@);
    lemma_u32s_le_two(v.texture@);
    lemma_u32s_le_four(v.normal@);
    assert(v.spec_bytes().subrange(0, 16) =~= v.spec_position_bytes());
    assert(v.spec_bytes().subrange(16, 24) =~= v.spec_texture_bytes());
    assert(v.spec_bytes().subrange(24, 40) =~= v.spec_normal_bytes());
}

} // verus!
