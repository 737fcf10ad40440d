//! The layouts of the two vertex buffers that the model pipeline reads: the
//! vertices of a mesh, and the records of the instances.

use crate::layout::{VertexAttribute, VertexBufferLayout, VertexFormat, VertexStepMode};
use crate::transforms::FlatTransform;
use vstd::prelude::*;

verus! {

/// The attributes of a vertex of a mesh: position, texture coordinates,
/// normal, tangent and bitangent, at shader locations 0 to 4.
pub open spec fn vertex_attributes() -> Seq<VertexAttribute> {
    seq![
        VertexAttribute { offset: 0, shader_location: 0, format: VertexFormat::Float32x3 },
        VertexAttribute { offset: 12, shader_location: 1, format: VertexFormat::Float32x2 },
        VertexAttribute { offset: 20, shader_location: 2, format: VertexFormat::Float32x3 },
        VertexAttribute { offset: 32, shader_location: 3, format: VertexFormat::Float32x3 },
        VertexAttribute { offset: 44, shader_location: 4, format: VertexFormat::Float32x3 },
    ]
}

/// The attributes of the record of an instance: the four rows of the model
/// matrix at shader locations 5 to 8, then the three rows of the normal
/// matrix at 9 to 11.
pub open spec fn instance_attributes() -> Seq<VertexAttribute> {
    seq![
        VertexAttribute { offset: 0, shader_location: 5, format: VertexFormat::Float32x4 },
        VertexAttribute { offset: 16, shader_location: 6, format: VertexFormat::Float32x4 },
        VertexAttribute { offset: 32, shader_location: 7, format: VertexFormat::Float32x4 },
        VertexAttribute { offset: 48, shader_location: 8, format: VertexFormat::Float32x4 },
        VertexAttribute { offset: 64, shader_location: 9, format: VertexFormat::Float32x3 },
        VertexAttribute { offset: 76, shader_location: 10, format: VertexFormat::Float32x3 },
        VertexAttribute { offset: 88, shader_location: 11, format: VertexFormat::Float32x3 },
    ]
}

/// The layout of the vertex buffer of a mesh: one vertex of 56 bytes after
/// the other.
pub fn vertex_layout() -> (r: VertexBufferLayout)
    ensures
        r.array_stride == 56,
        r.step_mode == VertexStepMode::Vertex,
        r.attributes@ == vertex_attributes(),
        r.tiled(),
{
    let mut attributes: Vec<VertexAttribute> = Vec::new();
    attributes.push(
        VertexAttribute { offset: 0, shader_location: 0, format: VertexFormat::Float32x3 },
    );
    attributes.push(
        VertexAttribute { offset: 12, shader_location: 1, format: VertexFormat::Float32x2 },
    );
    attributes.push(
        VertexAttribute { offset: 20, shader_location: 2, format: VertexFormat::Float32x3 },
    );
    attributes.push(
        VertexAttribute { offset: 32, shader_location: 3, format: VertexFormat::Float32x3 },
    );
    attributes.push(
        VertexAttribute { offset: 44, shader_location: 4, format: VertexFormat::Float32x3 },
    );
    assert(attributes@ =~= vertex_attributes());
    VertexBufferLayout { array_stride: 56, step_mode: VertexStepMode::Vertex, attributes }
}

/// The layout of the instance buffer: one record of 100 bytes for each
/// instance, a row of a matrix to each attribute.
pub fn instances_layout() -> (r: VertexBufferLayout)
    ensures
        r.array_stride == 100,
        r.step_mode == VertexStepMode::Instance,
        r.attributes@ == instance_attributes(),
        r.tiled(),
{
    let mut attributes: Vec<VertexAttribute> = Vec::new();
    attributes.push(
        VertexAttribute { offset: 0, shader_location: 5, format: VertexFormat::Float32x4 },
    );
    attributes.push(
        VertexAttribute { offset: 16, shader_location: 6, format: VertexFormat::Float32x4 },
    );
    attributes.push(
        VertexAttribute { offset: 32, shader_location: 7, format: VertexFormat::Float32x4 },
    );
    attributes.push(
        VertexAttribute { offset: 48, shader_location: 8, format: VertexFormat::Float32x4 },
    );
    attributes.push(
        VertexAttribute { offset: 64, shader_location: 9, format: VertexFormat::Float32x3 },
    );
    attributes.push(
        VertexAttribute { offset: 76, shader_location: 10, format: VertexFormat::Float32x3 },
    );
    attributes.push(
        VertexAttribute { offset: 88, shader_location: 11, format: VertexFormat::Float32x3 },
    );
    assert(attributes@ =~= instance_attributes());
    VertexBufferLayout { array_stride: 100, step_mode: VertexStepMode::Instance, attributes }
}

/// Each attribute of an instance holds one row of its record: the words of
/// the record from a quarter of the attribute's offset on are those of the
/// row, for the rows of the model matrix and then for those of the normal
/// matrix; and the stride is the length of the record.
pub proof fn lemma_attributes_hold_rows(record: FlatTransform)
    ensures
        forall|k: int|
            0 <= k < 4 ==> {
                let a = #[trigger] instance_attributes()[k];
                record.words().subrange(a.offset as int / 4, a.offset as int / 4 + a.format.words())
                    == record.model_transform[k]@
            },
        forall|k: int|
            4 <= k < 7 ==> {
                let a = #[trigger] instance_attributes()[k];
                record.words().subrange(a.offset as int / 4, a.offset as int / 4 + a.format.words())
                    == record.normal_transform[k - 4]@
            },
        4 * record.words().len() == 100,
{
    let w = record.words();
    assert(w.subrange(0, 4) =~= record.model_transform[0]@);
    assert(w.subrange(4, 8) =~= record.model_transform[1]@);
    assert(w.subrange(8, 12) =~= record.model_transform[2]@);
    assert(w.subrange(12, 16) =~= record.model_transform[3]@);
    assert(w.subrange(16, 19) =~= record.normal_transform[0]@);
    assert(w.subrange(19, 22) =~= record.normal_transform[1]@);
    assert(w.subrange(22, 25) =~= record.normal_transform[2]@);
}

} // verus!
