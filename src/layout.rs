//! Vertex and instance buffer layouts. Each layout packs its attributes one
//! after another with no gaps, at consecutive shader locations, so that the
//! offsets always match what the shader declares.
use vstd::prelude::*;

verus! {

/// The element type of one vertex attribute.
#[derive(Clone, Copy, Debug, PartialEq, Eq, Structural)]
pub enum AttributeFormat {
    Float32,
    Float32x3,
    Float32x4,
}

/// Size in bytes of an attribute of the given format.
pub open spec fn format_size(f: AttributeFormat) -> nat {
    match f {
        AttributeFormat::Float32 => 4,
        AttributeFormat::Float32x3 => 12,
        AttributeFormat::Float32x4 => 16,
    }
}

impl AttributeFormat {
    pub fn size(&self) -> (r: u64)
        ensures
            r == format_size(*self),
    {
        match self {
            AttributeFormat::Float32 => 4,
            AttributeFormat::Float32x3 => 12,
            AttributeFormat::Float32x4 => 16,
        }
    }
}

/// How often the buffer advances: once per vertex or once per instance.
#[derive(Clone, Copy, Debug, PartialEq, Eq, Structural)]
pub enum StepMode {
    Vertex,
    Instance,
}

#[derive(Clone, Copy, Debug, PartialEq, Eq, Structural)]
pub struct VertexAttribute {
    pub format: AttributeFormat,
    pub offset: u64,
    pub shader_location: u32,
}

#[derive(Clone, Debug)]
pub struct BufferLayout {
    pub array_stride: u64,
    pub step_mode: StepMode,
    pub attributes: Vec<VertexAttribute>,
}

/// Total size of the first `n` formats.
pub open spec fn packed_size(formats: Seq<AttributeFormat>, n: int) -> nat
    decreases n,
{
    if n <= 0 {
        0
    } else {
        packed_size(formats, n - 1) + format_size(formats[n - 1])
    }
}

/// The attributes hold `formats` in order, each placed right after the one
/// before, at locations counting up from `first_location`.
pub open spec fn packs(
    attrs: Seq<VertexAttribute>,
    formats: Seq<AttributeFormat>,
    first_location: int,
) -> bool {
    &&& attrs.len() == formats.len()
    &&& forall|i: int|
        0 <= i < attrs.len() ==> {
            &&& (#[trigger] attrs[i]).format == formats[i]
            &&& attrs[i].offset == packed_size(formats, i)
            &&& attrs[i].shader_location == first_location + i
        }
}

/// A layout for `formats` starting at `first_location`, stepping as `step`.
pub open spec fn is_layout_of(
    layout: BufferLayout,
    formats: Seq<AttributeFormat>,
    first_location: int,
    step: StepMode,
) -> bool {
    &&& packs(layout.attributes@, formats, first_location)
    &&& layout.array_stride == packed_size(formats, formats.len() as int)
    &&& layout.step_mode == step
}

proof fn lemma_packed_size_bound(formats: Seq<AttributeFormat>, n: int)
    requires
        0 <= n <= formats.len(),
    ensures
        packed_size(formats, n) <= 16 * n,
    decreases n,
{
    if n > 0 {
        lemma_packed_size_bound(formats, n - 1);
    }
}

/// Lays out `formats` back to back, at shader locations counting up from
/// `first_location`.
pub fn pack_attributes(formats: &Vec<AttributeFormat>, first_location: u32, step: StepMode) -> (r:
    BufferLayout)
    requires
        first_location + formats@.len() <= u32::MAX + 1,
        formats@.len() <= u32::MAX,
    ensures
        is_layout_of(r, formats@, first_location as int, step),
{
    let mut attributes: Vec<VertexAttribute> = Vec::new();
    let mut offset: u64 = 0;
    let mut i: usize = 0;
    while i < formats.len()
        invariant
            i <= formats@.len(),
            formats@.len() <= u32::MAX,
            first_location + formats@.len() <= u32::MAX + 1,
            offset == packed_size(formats@, i as int),
            packs(attributes@, formats@.subrange(0, i as int), first_location as int),
        decreases formats@.len() - i,
    {
        proof {
            lemma_packed_size_bound(formats@, i as int);
        }
        let format = formats[i];
        let attr = VertexAttribute {
            format,
            offset,
            shader_location: first_location + i as u32,
        };
        attributes.push(attr);
        offset = offset + format.size();
        proof {
            let prev = formats@.subrange(0, i as int);
            let next = formats@.subrange(0, i + 1);
            assert forall|k: int| 0 <= k <= i implies packed_size(next, k) == packed_size(
                formats@,
                k,
            ) by {
                lemma_packed_size_prefix(formats@, next, k);
            }
            assert forall|k: int| 0 <= k < i implies packed_size(prev, k) == packed_size(
                formats@,
                k,
            ) by {
                lemma_packed_size_prefix(formats@, prev, k);
            }
        }
        i = i + 1;
    }
    proof {
        assert(formats@.subrange(0, formats@.len() as int) =~= formats@);
    }
    BufferLayout { array_stride: offset, step_mode: step, attributes }
}

proof fn lemma_packed_size_prefix(whole: Seq<AttributeFormat>, part: Seq<AttributeFormat>, n: int)
    requires
        0 <= n <= part.len() <= whole.len(),
        forall|k: int| 0 <= k < part.len() ==> part[k] == whole[k],
    ensures
        packed_size(part, n) == packed_size(whole, n),
    decreases n,
{
    if n > 0 {
        lemma_packed_size_prefix(whole, part, n - 1);
    }
}

/// Bytes of one quad vertex: a position and a colour, three floats each.
pub const VERTEX_SIZE: u64 = 24;

/// Bytes of one packed box instance: a 4x4 model matrix and a corner radius.
pub const BOX_RAW_SIZE: u64 = 68;

/// Shader location of the first per-instance attribute, right after the two
/// per-vertex ones.
pub const FIRST_INSTANCE_LOCATION: u32 = 2;

/// A quad vertex: position, then colour.
pub open spec fn vertex_formats() -> Seq<AttributeFormat> {
    seq![AttributeFormat::Float32x3, AttributeFormat::Float32x3]
}

/// A packed box: the four columns of its model matrix, then its corner radius.
pub open spec fn box_raw_formats() -> Seq<AttributeFormat> {
    seq![
        AttributeFormat::Float32x4,
        AttributeFormat::Float32x4,
        AttributeFormat::Float32x4,
        AttributeFormat::Float32x4,
        AttributeFormat::Float32,
    ]
}

/// Layout of the quad's vertex buffer (slot 0), stepped per vertex, at
/// locations 0 and 1.
pub fn vertex_layout() -> (r: BufferLayout)
    ensures
        is_layout_of(r, vertex_formats(), 0, StepMode::Vertex),
        r.array_stride == VERTEX_SIZE,
{
    let formats = vec![AttributeFormat::Float32x3, AttributeFormat::Float32x3];
    assert(formats@ =~= vertex_formats());
    reveal_with_fuel(packed_size, 3);
    pack_attributes(&formats, 0, StepMode::Vertex)
}

/// Layout of the instance buffer (slot 1), stepped per instance, at the
/// locations that follow the vertex attributes.
pub fn box_raw_layout() -> (r: BufferLayout)
    ensures
        is_layout_of(r, box_raw_formats(), FIRST_INSTANCE_LOCATION as int, StepMode::Instance),
        r.array_stride == BOX_RAW_SIZE,
{
    let formats = vec![
        AttributeFormat::Float32x4,
        AttributeFormat::Float32x4,
        AttributeFormat::Float32x4,
        AttributeFormat::Float32x4,
        AttributeFormat::Float32,
    ];
    assert(formats@ =~= box_raw_formats());
    reveal_with_fuel(packed_size, 6);
    pack_attributes(&formats, FIRST_INSTANCE_LOCATION, StepMode::Instance)
}

/// The vertex layout and the instance layout never claim the same shader
/// location, and each ends its attributes exactly at its stride.
pub proof fn lemma_layouts_compatible(v: BufferLayout, b: BufferLayout)
    requires
        is_layout_of(v, vertex_formats(), 0, StepMode::Vertex),
        is_layout_of(b, box_raw_formats(), FIRST_INSTANCE_LOCATION as int, StepMode::Instance),
    ensures
        forall|i: int, j: int|
            0 <= i < v.attributes@.len() && 0 <= j < b.attributes@.len() ==> (
            #[trigger] v.attributes@[i]).shader_location != (
            #[trigger] b.attributes@[j]).shader_location,
        v.attributes@.last().offset + format_size(v.attributes@.last().format) == v.array_stride,
        b.attributes@.last().offset + format_size(b.attributes@.last().format) == b.array_stride,
        v.array_stride == VERTEX_SIZE,
        b.array_stride == BOX_RAW_SIZE,
{
    reveal_with_fuel(packed_size, 6);
    assert(v.attributes@[1].format == vertex_formats()[1]);
    assert(b.attributes@[4].format == box_raw_formats()[4]);
}

} // verus!
