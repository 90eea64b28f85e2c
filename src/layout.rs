//! Vertex-buffer layouts of the mesh vertices and of the per-instance records:
//! attributes packed one after another, with consecutive shader locations.
use vstd::prelude::*;

verus! {

/// Format of one vertex attribute.
#[derive(Clone, Copy, Debug, PartialEq, Eq, Structural)]
pub enum AttrFormat {
    Float32x2,
    Float32x3,
    Float32x4,
    Uint32,
}

/// Size in bytes of one attribute of format `f`.
pub open spec fn format_size(f: AttrFormat) -> int {
    match f {
        AttrFormat::Float32x2 => 8,
        AttrFormat::Float32x3 => 12,
        AttrFormat::Float32x4 => 16,
        AttrFormat::Uint32 => 4,
    }
}

/// Whether a buffer advances per vertex or per instance.
#[derive(Clone, Copy, Debug, PartialEq, Eq, Structural)]
pub enum StepMode {
    Vertex,
    Instance,
}

#[derive(Clone, Copy, Debug, PartialEq, Eq, Structural)]
pub struct VertexAttr {
    pub offset: u64,
    pub shader_location: u32,
    pub format: AttrFormat,
}

#[derive(Clone, Debug)]
pub struct BufferLayout {
    pub array_stride: u64,
    pub step_mode: StepMode,
    pub attributes: Vec<VertexAttr>,
}

/// Byte offset of attribute `k` when `formats` are packed without gaps.
pub open spec fn packed_offset(formats: Seq<AttrFormat>, k: int) -> int
    decreases k,
{
    if k <= 0 {
        0
    } else {
        packed_offset(formats, k - 1) + format_size(formats[k - 1])
    }
}

/// The attributes of `formats` packed without gaps, at shader locations
/// `first_location`, `first_location + 1`, ...
pub open spec fn packed(formats: Seq<AttrFormat>, first_location: int) -> Seq<VertexAttr> {
    Seq::new(
        formats.len(),
        |k: int|
            VertexAttr {
                offset: packed_offset(formats, k) as u64,
                shader_location: (first_location + k) as u32,
                format: formats[k],
            },
    )
}

proof fn lemma_packed_offset_bound(formats: Seq<AttrFormat>, k: int)
    requires
        0 <= k <= formats.len(),
    ensures
        0 <= packed_offset(formats, k) <= 16 * k,
    decreases k,
{
    if k > 0 {
        lemma_packed_offset_bound(formats, k - 1);
    }
}

fn format_bytes(f: AttrFormat) -> (r: u64)
    ensures
        r == format_size(f),
{
    match f {
        AttrFormat::Float32x2 => 8,
        AttrFormat::Float32x3 => 12,
        AttrFormat::Float32x4 => 16,
        AttrFormat::Uint32 => 4,
    }
}

/// Packs `formats` one after another from offset zero, numbering shader
/// locations from `first_location`.
pub fn pack_attributes(formats: &Vec<AttrFormat>, first_location: u32) -> (r: Vec<VertexAttr>)
    requires
        first_location + formats@.len() <= u32::MAX,
        16 * formats@.len() <= u64::MAX,
    ensures
        r@ == packed(formats@, first_location as int),
{
    let mut attrs: Vec<VertexAttr> = Vec::new();
    let mut offset: u64 = 0;
    let mut k: usize = 0;
    while k < formats.len()
        invariant
            first_location + formats@.len() <= u32::MAX,
            16 * formats@.len() <= u64::MAX,
            k <= formats@.len(),
            offset == packed_offset(formats@, k as int),
            attrs@ == packed(formats@, first_location as int).take(k as int),
        decreases formats@.len() - k,
    {
        proof {
            lemma_packed_offset_bound(formats@, k as int);
        }
        let f = formats[k];
        attrs.push(VertexAttr { offset, shader_location: first_location + k as u32, format: f });
        offset = offset + format_bytes(f);
        k = k + 1;
        assert(attrs@ =~= packed(formats@, first_location as int).take(k as int));
    }
    assert(attrs@ =~= packed(formats@, first_location as int));
    attrs
}

/// Bytes of padding at the end of an instance record.
pub const INSTANCE_PADDING: u64 = 24;

/// Attributes of an instance record: the four columns of the model matrix,
/// the three columns of the normal matrix, and the texture layer.
pub open spec fn instance_formats() -> Seq<AttrFormat> {
    seq![
        AttrFormat::Float32x4,
        AttrFormat::Float32x4,
        AttrFormat::Float32x4,
        AttrFormat::Float32x4,
        AttrFormat::Float32x3,
        AttrFormat::Float32x3,
        AttrFormat::Float32x3,
        AttrFormat::Uint32,
    ]
}

/// Attributes of a mesh vertex: position, texture coordinates, normal.
pub open spec fn vertex_formats() -> Seq<AttrFormat> {
    seq![AttrFormat::Float32x3, AttrFormat::Float32x2, AttrFormat::Float32x3]
}

/// Size in bytes of an instance record, padding included.
pub open spec fn instance_record_size() -> int {
    packed_offset(instance_formats(), 8) + INSTANCE_PADDING
}

/// Shader location of the first instance attribute, after the mesh vertex
/// attributes.
pub const INSTANCE_FIRST_LOCATION: u32 = 5;

/// Layout of the per-instance buffer: one record per body, stepping per
/// instance.
pub fn instance_layout() -> (r: BufferLayout)
    ensures
        r.array_stride == instance_record_size(),
        r.array_stride == 128,
        r.step_mode == StepMode::Instance,
        r.attributes@ == packed(instance_formats(), INSTANCE_FIRST_LOCATION as int),
{
    let mut formats: Vec<AttrFormat> = Vec::new();
    formats.push(AttrFormat::Float32x4);
    formats.push(AttrFormat::Float32x4);
    formats.push(AttrFormat::Float32x4);
    formats.push(AttrFormat::Float32x4);
    formats.push(AttrFormat::Float32x3);
    formats.push(AttrFormat::Float32x3);
    formats.push(AttrFormat::Float32x3);
    formats.push(AttrFormat::Uint32);
    assert(formats@ =~= instance_formats());
    let attributes = pack_attributes(&formats, INSTANCE_FIRST_LOCATION);
    let last = attributes[7];
    proof {
        reveal_with_fuel(packed_offset, 9);
        assert(packed_offset(instance_formats(), 7) == 100);
    }
    BufferLayout {
        array_stride: last.offset + format_bytes(last.format) + INSTANCE_PADDING,
        step_mode: StepMode::Instance,
        attributes,
    }
}

/// Layout of the sphere and ring vertex buffers, stepping per vertex.
pub fn vertex_layout() -> (r: BufferLayout)
    ensures
        r.array_stride == packed_offset(vertex_formats(), 3),
        r.array_stride == 32,
        r.step_mode == StepMode::Vertex,
        r.attributes@ == packed(vertex_formats(), 0),
{
    let mut formats: Vec<AttrFormat> = Vec::new();
    formats.push(AttrFormat::Float32x3);
    formats.push(AttrFormat::Float32x2);
    formats.push(AttrFormat::Float32x3);
    assert(formats@ =~= vertex_formats());
    let attributes = pack_attributes(&formats, 0);
    let last = attributes[2];
    proof {
        reveal_with_fuel(packed_offset, 4);
    }
    BufferLayout {
        array_stride: last.offset + format_bytes(last.format),
        step_mode: StepMode::Vertex,
        attributes,
    }
}

/// Packed attributes never overlap: each starts where the one before it ends.
pub proof fn lemma_packed_attributes_adjacent(formats: Seq<AttrFormat>, k: int)
    requires
        0 <= k,
        k + 1 < formats.len(),
    ensures
        packed_offset(formats, k + 1) == packed_offset(formats, k) + format_size(formats[k]),
{
}

} // verus!
