//! Vertex-attribute descriptors.
//!
//! A vertex record is a tightly packed sequence of fields, each made of a
//! number of 4-byte float components. The graphics pipeline reads such
//! records from a raw buffer, so it must be told, for every field, the
//! attribute location, the component count, the byte offset of the field
//! inside one record, and the stride from one record to the next. The
//! functions here derive that metadata from the record's declared field
//! order alone.

use vstd::prelude::*;

verus! {

/// Byte size of one float component of a vertex field.
pub const COMPONENT_BYTES: u32 = 4;

/// One field of a vertex record, in declaration order: the attribute
/// location it is wired to and how many float components it holds.
#[derive(Clone, Copy, Debug, PartialEq, Eq, Structural)]
pub struct FieldSpec {
    pub location: u32,
    pub components: u32,
}

/// Byte size of one field: its component count times the component size.
pub open spec fn field_size(f: FieldSpec) -> int {
    (f.components as int) * (COMPONENT_BYTES as int)
}

/// Byte offset of field `i` inside one record: the sum of the sizes of the
/// fields declared before it (tight packing, no padding).
pub open spec fn offset_of(fields: Seq<FieldSpec>, i: int) -> int
    decreases i,
{
    if i <= 0 {
        0
    } else {
        offset_of(fields, i - 1) + field_size(fields[i - 1])
    }
}

/// Total byte size of one record: the offset just past its last field.
pub open spec fn record_size(fields: Seq<FieldSpec>) -> int {
    offset_of(fields, fields.len() as int)
}

/// One entry of the attribute descriptor handed to the pipeline.
#[derive(Clone, Copy, Debug, PartialEq, Eq, Structural)]
pub struct AttribEntry {
    pub location: u32,
    pub components: u32,
    pub normalized: bool,
    pub offset: usize,
    pub stride: usize,
}

/// The descriptor entry for field `i` is correct: same location and
/// component count as the field, not normalized, at the field's packed
/// byte offset, with the whole record's size as stride.
pub open spec fn entry_matches(fields: Seq<FieldSpec>, i: int, e: AttribEntry) -> bool {
    &&& e.location == fields[i].location
    &&& e.components == fields[i].components
    &&& !e.normalized
    &&& e.offset == offset_of(fields, i)
    &&& e.stride == record_size(fields)
}

/// Field offsets never decrease along the declaration order.
pub proof fn lemma_offset_of_monotone(fields: Seq<FieldSpec>, i: int, j: int)
    requires
        0 <= i <= j,
    ensures
        offset_of(fields, i) <= offset_of(fields, j),
    decreases j,
{
    if i < j {
        lemma_offset_of_monotone(fields, i, j - 1);
    }
}

/// Every field's byte span lies inside the record: the bytes of the fields
/// up to and including field `i`, summed in declared order, never exceed
/// the record's total byte size.
pub proof fn lemma_field_span_within_record(fields: Seq<FieldSpec>, i: int)
    requires
        0 <= i < fields.len(),
    ensures
        offset_of(fields, i) + field_size(fields[i]) <= record_size(fields),
{
    lemma_offset_of_monotone(fields, i + 1, fields.len() as int);
}

/// Total byte size of one record, computed at run time.
pub fn record_total_size(fields: &Vec<FieldSpec>) -> (r: usize)
    requires
        record_size(fields@) <= usize::MAX,
    ensures
        r == record_size(fields@),
{
    let mut total: usize = 0;
    let mut i: usize = 0;
    while i < fields.len()
        invariant
            i <= fields@.len(),
            total == offset_of(fields@, i as int),
            record_size(fields@) <= usize::MAX,
        decreases fields@.len() - i,
    {
        proof {
            lemma_field_span_within_record(fields@, i as int);
            lemma_offset_of_monotone(fields@, 0, i as int);
        }
        let size: usize = (fields[i].components as usize) * (COMPONENT_BYTES as usize);
        total = total + size;
        i = i + 1;
    }
    total
}

/// Builds the attribute descriptor for a record: one entry per field, in
/// declaration order, each carrying the field's location, component count,
/// packed byte offset and the record's stride.
pub fn attrib_entries(fields: &Vec<FieldSpec>) -> (entries: Vec<AttribEntry>)
    requires
        record_size(fields@) <= usize::MAX,
    ensures
        entries@.len() == fields@.len(),
        forall|i: int| 0 <= i < entries@.len() ==> entry_matches(fields@, i, #[trigger] entries@[i]),
{
    let stride = record_total_size(fields);
    let mut entries: Vec<AttribEntry> = Vec::new();
    let mut offset: usize = 0;
    let mut i: usize = 0;
    while i < fields.len()
        invariant
            i <= fields@.len(),
            offset == offset_of(fields@, i as int),
            record_size(fields@) <= usize::MAX,
            stride == record_size(fields@),
            entries@.len() == i,
            forall|j: int| 0 <= j < i ==> entry_matches(fields@, j, #[trigger] entries@[j]),
        decreases fields@.len() - i,
    {
        proof {
            lemma_field_span_within_record(fields@, i as int);
            lemma_offset_of_monotone(fields@, 0, i as int);
        }
        let size: usize = (fields[i].components as usize) * (COMPONENT_BYTES as usize);
        entries.push(
            AttribEntry {
                location: fields[i].location,
                components: fields[i].components,
                normalized: false,
                offset,
                stride,
            },
        );
        offset = offset + size;
        i = i + 1;
    }
    entries
}

/// The demo's vertex record: a position field at location 0 and a color
/// field at location 1, three float components each.
pub open spec fn triangle_vertex_fields() -> Seq<FieldSpec> {
    seq![
        FieldSpec { location: 0, components: 3 },
        FieldSpec { location: 1, components: 3 },
    ]
}

/// The demo's vertex fields as a runtime value.
pub fn vertex_fields() -> (r: Vec<FieldSpec>)
    ensures
        r@ == triangle_vertex_fields(),
{
    let mut v: Vec<FieldSpec> = Vec::new();
    v.push(FieldSpec { location: 0, components: 3 });
    v.push(FieldSpec { location: 1, components: 3 });
    proof {
        assert(v@ =~= triangle_vertex_fields());
    }
    v
}

/// Byte size of one demo vertex: two fields of three 4-byte components.
pub fn vertex_stride() -> (r: usize)
    ensures
        r == record_size(triangle_vertex_fields()),
        r == 24,
{
    proof {
        lemma_triangle_vertex_record_size();
    }
    let fields = vertex_fields();
    record_total_size(&fields)
}

/// The demo vertex record is 24 bytes long.
pub proof fn lemma_triangle_vertex_record_size()
    ensures
        record_size(triangle_vertex_fields()) == 24,
{
    let s = triangle_vertex_fields();
    assert(offset_of(s, 0) == 0);
    assert(offset_of(s, 1) == offset_of(s, 0) + field_size(s[0]));
    assert(offset_of(s, 2) == offset_of(s, 1) + field_size(s[1]));
}

/// Byte size of a buffer holding `count` demo vertices.
pub fn vertex_buffer_size(count: u32) -> (r: usize)
    requires
        (count as int) * record_size(triangle_vertex_fields()) <= usize::MAX,
    ensures
        r == (count as int) * record_size(triangle_vertex_fields()),
{
    proof {
        lemma_triangle_vertex_record_size();
    }
    (count as usize) * vertex_stride()
}

} // verus!
