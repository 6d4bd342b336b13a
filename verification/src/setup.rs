//! The start-up sequence for the vertex data.
//!
//! Before the first frame, the demo uploads its vertex records into a
//! buffer object and configures a vertex array object that tells the
//! pipeline how to read them, installing one attribute descriptor entry per
//! field. The native API is a bag of implicit global bindings, so the order
//! of the calls is the contract; this module states that order exactly.

use vstd::prelude::*;

use crate::data::AttribEntry;

verus! {

/// One native call of the vertex set-up sequence. A `buffer` or `vao` of
/// zero unbinds.
#[derive(Clone, Copy, Debug, PartialEq, Eq, Structural)]
pub enum SetupStep {
    BindArrayBuffer { buffer: u32 },
    BufferData { size: usize },
    BindVertexArray { vao: u32 },
    EnableVertexAttribArray { location: u32 },
    VertexAttribPointer { entry: AttribEntry },
}

/// The two calls that install one descriptor entry, for each entry in
/// order: enable its attribute location, then describe the field's layout.
pub open spec fn attrib_steps(entries: Seq<AttribEntry>) -> Seq<SetupStep>
    decreases entries.len(),
{
    if entries.len() == 0 {
        Seq::empty()
    } else {
        attrib_steps(entries.drop_last()) + seq![
            SetupStep::EnableVertexAttribArray { location: entries.last().location },
            SetupStep::VertexAttribPointer { entry: entries.last() },
        ]
    }
}

/// The whole set-up sequence: bind the buffer and upload `buffer_size`
/// bytes of vertex data, unbind it; then bind the vertex array, bind the
/// buffer again, install every descriptor entry, and unbind both.
pub open spec fn setup_plan_spec(
    vbo: u32,
    vao: u32,
    buffer_size: usize,
    entries: Seq<AttribEntry>,
) -> Seq<SetupStep> {
    seq![
        SetupStep::BindArrayBuffer { buffer: vbo },
        SetupStep::BufferData { size: buffer_size },
        SetupStep::BindArrayBuffer { buffer: 0 },
        SetupStep::BindVertexArray { vao },
        SetupStep::BindArrayBuffer { buffer: vbo },
    ] + attrib_steps(entries) + seq![
        SetupStep::BindArrayBuffer { buffer: 0 },
        SetupStep::BindVertexArray { vao: 0 },
    ]
}

/// The set-up sequence as a runtime value, in call order.
pub fn vertex_setup_plan(
    vbo: u32,
    vao: u32,
    buffer_size: usize,
    entries: &Vec<AttribEntry>,
) -> (r: Vec<SetupStep>)
    ensures
        r@ =~= setup_plan_spec(vbo, vao, buffer_size, entries@),
{
    let mut steps: Vec<SetupStep> = Vec::new();
    steps.push(SetupStep::BindArrayBuffer { buffer: vbo });
    steps.push(SetupStep::BufferData { size: buffer_size });
    steps.push(SetupStep::BindArrayBuffer { buffer: 0 });
    steps.push(SetupStep::BindVertexArray { vao });
    steps.push(SetupStep::BindArrayBuffer { buffer: vbo });
    let ghost prefix = steps@;
    let mut i: usize = 0;
    while i < entries.len()
        invariant
            i <= entries@.len(),
            steps@ =~= prefix + attrib_steps(entries@.take(i as int)),
        decreases entries@.len() - i,
    {
        steps.push(SetupStep::EnableVertexAttribArray { location: entries[i].location });
        steps.push(SetupStep::VertexAttribPointer { entry: entries[i] });
        proof {
            let taken = entries@.take(i + 1);
            assert(taken.drop_last() =~= entries@.take(i as int));
            assert(taken.last() == entries@[i as int]);
        }
        i = i + 1;
    }
    proof {
        assert(entries@.take(entries@.len() as int) =~= entries@);
    }
    steps.push(SetupStep::BindArrayBuffer { buffer: 0 });
    steps.push(SetupStep::BindVertexArray { vao: 0 });
    steps
}

} // verus!
