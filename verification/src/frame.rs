//! The frame loop.
//!
//! Each iteration drains the pending input events. A quit signal among them
//! ends the loop with nothing drawn that frame; otherwise the frame issues
//! exactly one clear, one program activation, one vertex-array bind, one
//! triangle draw and one present. The application performs the native calls
//! the commands stand for and feeds the next batch of events back in.

use vstd::prelude::*;

use crate::shader::PipelineState;
use crate::TRIANGLE_VERTEX_COUNT;

verus! {

/// Where the loop stands: still drawing frames, or done after a quit.
#[derive(Clone, Copy, Debug, PartialEq, Eq, Structural)]
pub enum LoopState {
    Running,
    Terminated,
}

/// An input event, as far as the loop cares: a quit signal or anything else.
#[derive(Clone, Copy, Debug, PartialEq, Eq, Structural)]
pub enum Event {
    Quit,
    Other,
}

/// One native call a frame issues, in order: clear the color buffer, make
/// the program active, bind the vertex array, draw `count` vertices from
/// `first` with no index buffer, and present the finished frame.
#[derive(Clone, Copy, Debug, PartialEq, Eq, Structural)]
pub enum FrameCommand {
    Clear,
    UseProgram { program: u32 },
    BindVertexArray { vao: u32 },
    DrawTriangles { first: u32, count: u32 },
    Present,
}

/// Whether a quit signal is among the events.
pub open spec fn has_quit(events: Seq<Event>) -> bool {
    exists|i: int| 0 <= i < events.len() && events[i] is Quit
}

/// The commands one quiet frame issues, in order.
pub open spec fn frame_commands_spec(program: u32, vao: u32) -> Seq<FrameCommand> {
    seq![
        FrameCommand::Clear,
        FrameCommand::UseProgram { program },
        FrameCommand::BindVertexArray { vao },
        FrameCommand::DrawTriangles { first: 0, count: TRIANGLE_VERTEX_COUNT },
        FrameCommand::Present,
    ]
}

/// What one command leaves of the pipeline bindings: activating a program
/// and binding a vertex array change them; clearing, drawing and presenting
/// do not.
pub open spec fn command_effect(s: PipelineState, c: FrameCommand) -> PipelineState {
    match c {
        FrameCommand::UseProgram { program } => PipelineState { active_program: program, ..s },
        FrameCommand::BindVertexArray { vao } => PipelineState { bound_vertex_array: vao, ..s },
        _ => s,
    }
}

/// What a sequence of commands, performed in order, leaves of the pipeline.
pub open spec fn commands_effect(s: PipelineState, cs: Seq<FrameCommand>) -> PipelineState
    decreases cs.len(),
{
    if cs.len() == 0 {
        s
    } else {
        commands_effect(command_effect(s, cs[0]), cs.skip(1))
    }
}

/// Whatever the pipeline held before, a quiet frame's commands leave the
/// demo's program active and its vertex array bound: the frame relies on no
/// binding surviving from an earlier frame.
pub proof fn lemma_frame_commands_effect(s: PipelineState, program: u32, vao: u32)
    ensures
        commands_effect(s, frame_commands_spec(program, vao)) == (PipelineState {
            active_program: program,
            bound_vertex_array: vao,
        }),
{
    reveal_with_fuel(commands_effect, 6);
}

/// Whether the drained events hold a quit signal.
pub fn contains_quit(events: &Vec<Event>) -> (r: bool)
    ensures
        r == has_quit(events@),
{
    let mut i: usize = 0;
    while i < events.len()
        invariant
            i <= events@.len(),
            forall|j: int| 0 <= j < i ==> !(events@[j] is Quit),
        decreases events@.len() - i,
    {
        match events[i] {
            Event::Quit => {
                return true;
            },
            Event::Other => {},
        }
        i = i + 1;
    }
    false
}

/// One iteration of the loop, given the events drained this frame. A quit
/// signal ends the loop and issues no command at all; otherwise the loop
/// keeps running and issues exactly the five frame commands, in order.
pub fn frame_step(events: &Vec<Event>, program: u32, vao: u32) -> (r: (
    LoopState,
    Vec<FrameCommand>,
))
    ensures
        has_quit(events@) ==> (r.0 is Terminated && r.1@ =~= Seq::<FrameCommand>::empty()),
        !has_quit(events@) ==> (r.0 is Running && r.1@ =~= frame_commands_spec(program, vao)),
{
    if contains_quit(events) {
        (LoopState::Terminated, Vec::new())
    } else {
        let mut commands: Vec<FrameCommand> = Vec::new();
        commands.push(FrameCommand::Clear);
        commands.push(FrameCommand::UseProgram { program });
        commands.push(FrameCommand::BindVertexArray { vao });
        commands.push(FrameCommand::DrawTriangles { first: 0, count: TRIANGLE_VERTEX_COUNT });
        commands.push(FrameCommand::Present);
        (LoopState::Running, commands)
    }
}

/// The whole loop over a given history of per-frame event batches. Frames
/// run in order as long as no batch holds a quit signal; each such frame
/// contributes its five commands. The first batch with a quit signal stops
/// the loop there, with nothing issued for that frame and the later batches
/// never drained. A history with no quit signal leaves the loop running
/// after its last batch.
pub fn run_loop(batches: &Vec<Vec<Event>>, program: u32, vao: u32) -> (r: (
    LoopState,
    Vec<Vec<FrameCommand>>,
))
    ensures
        r.1@.len() <= batches@.len(),
        forall|i: int|
            0 <= i < r.1@.len() ==> !has_quit(#[trigger] batches@[i]@),
        forall|i: int|
            0 <= i < r.1@.len() ==> #[trigger] r.1@[i]@ =~= frame_commands_spec(program, vao),
        r.0 is Terminated ==> (r.1@.len() < batches@.len() && has_quit(
            batches@[r.1@.len() as int]@,
        )),
        r.0 is Running ==> r.1@.len() == batches@.len(),
{
    let mut frames: Vec<Vec<FrameCommand>> = Vec::new();
    let mut i: usize = 0;
    while i < batches.len()
        invariant
            i <= batches@.len(),
            frames@.len() == i,
            forall|j: int| 0 <= j < i ==> !has_quit(#[trigger] batches@[j]@),
            forall|j: int|
                0 <= j < i ==> #[trigger] frames@[j]@ =~= frame_commands_spec(program, vao),
        decreases batches@.len() - i,
    {
        let (state, commands) = frame_step(&batches[i], program, vao);
        match state {
            LoopState::Terminated => {
                return (LoopState::Terminated, frames);
            },
            LoopState::Running => {
                frames.push(commands);
            },
        }
        i = i + 1;
    }
    (LoopState::Running, frames)
}

} // verus!
