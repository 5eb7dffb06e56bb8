//! How per-vertex and per-instance data is laid out for the vertex stage.

use vstd::prelude::*;

verus! {

/// The format of one vertex attribute: two, three or four 32-bit floats.
#[derive(Clone, Copy, Debug, PartialEq, Eq, Structural)]
pub enum VertexFormat {
    Float2,
    Float3,
    Float4,
}

/// Whether a buffer advances once per vertex or once per instance.
#[derive(Clone, Copy, Debug, PartialEq, Eq, Structural)]
pub enum StepMode {
    Vertex,
    Instance,
}

/// One attribute of a vertex buffer: its format, byte offset and shader location.
#[derive(Clone, Copy, Debug, PartialEq, Eq, Structural)]
pub struct VertexAttribute {
    pub format: VertexFormat,
    pub offset: u64,
    pub shader_location: u32,
}

/// The layout of a vertex buffer: the bytes from one element to the next, how it
/// steps, and its attributes.
#[derive(Debug, PartialEq)]
pub struct VertexLayout {
    pub stride: u64,
    pub step_mode: StepMode,
    pub attributes: Vec<VertexAttribute>,
}

/// The size in bytes of an attribute of the given format.
pub open spec fn format_size(format: VertexFormat) -> nat {
    match format {
        VertexFormat::Float2 => 8,
        VertexFormat::Float3 => 12,
        VertexFormat::Float4 => 16,
    }
}

/// The bytes that attributes of the given formats take when packed back to back.
pub open spec fn packed_size(formats: Seq<VertexFormat>) -> nat
    decreases formats.len(),
{
    if formats.len() == 0 {
        0
    } else {
        packed_size(formats.drop_last()) + format_size(formats.last())
    }
}

fn format_size_of(format: VertexFormat) -> (r: u64)
    ensures
        r as nat == format_size(format),
{
    match format {
        VertexFormat::Float2 => 8,
        VertexFormat::Float3 => 12,
        VertexFormat::Float4 => 16,
    }
}

/// Packs attributes of the given formats back to back, in order, with no padding:
/// each starts where the previous one ends, shader locations count up from
/// `first_location`, and the stride is the size of them all.
pub fn packed_layout(formats: &[VertexFormat], first_location: u32, step_mode: StepMode) -> (r:
    VertexLayout)
    requires
        first_location + formats@.len() <= u32::MAX + 1,
    ensures
        r.stride as nat == packed_size(formats@),
        r.step_mode == step_mode,
        r.attributes@.len() == formats@.len(),
        forall|i: int|
            0 <= i < formats@.len() ==> {
                &&& (#[trigger] r.attributes@[i]).format == formats@[i]
                &&& r.attributes@[i].offset as nat == packed_size(formats@.take(i))
                &&& r.attributes@[i].shader_location == first_location + i
            },
{
    let mut attributes: Vec<VertexAttribute> = Vec::new();
    let mut offset: u64 = 0;
    let mut i: usize = 0;
    while i < formats.len()
        invariant
            0 <= i <= formats@.len(),
            first_location + formats@.len() <= u32::MAX + 1,
            offset as nat == packed_size(formats@.take(i as int)),
            offset <= 16 * i,
            attributes@.len() == i,
            forall|j: int|
                0 <= j < i ==> {
                    &&& (#[trigger] attributes@[j]).format == formats@[j]
                    &&& attributes@[j].offset as nat == packed_size(formats@.take(j))
                    &&& attributes@[j].shader_location == first_location + j
                },
        decreases formats@.len() - i,
    {
        let format = formats[i];
        attributes.push(
            VertexAttribute { format, offset, shader_location: first_location + i as u32 },
        );
        proof {
            let next = formats@.take(i + 1);
            assert(next.drop_last() =~= formats@.take(i as int));
            assert(next.last() == format);
        }
        offset = offset + format_size_of(format);
        i += 1;
    }
    assert(formats@.take(i as int) =~= formats@);
    VertexLayout { stride: offset, step_mode, attributes }
}

} // verus!
