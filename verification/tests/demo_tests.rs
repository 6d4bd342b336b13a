use std::cell::Cell;

use triangle_demo::data::{
    attrib_entries, record_total_size, vertex_buffer_size, vertex_fields, vertex_stride,
    AttribEntry, FieldSpec, COMPONENT_BYTES,
};
use triangle_demo::frame::{contains_quit, frame_step, run_loop, Event, FrameCommand, LoopState};
use triangle_demo::gl_handle::{symbol_names, Gl};
use triangle_demo::report::{failure_to_string, Cause};
use triangle_demo::setup::{vertex_setup_plan, SetupStep};
use triangle_demo::shader::{
    build_checked, compile_checked, link_checked, link_plan, source_loaded, stage_resource_path,
    LinkStep, PipelineState, ShaderError, Stage, StatusReport,
};
use triangle_demo::TRIANGLE_VERTEX_COUNT;

fn ok_report() -> StatusReport {
    StatusReport { ok: true, log: String::new() }
}

fn bad_report(log: &str) -> StatusReport {
    StatusReport { ok: false, log: log.to_string() }
}

#[test]
fn descriptor_has_one_entry_per_field() {
    let fields = vertex_fields();
    let entries = attrib_entries(&fields);
    assert_eq!(entries.len(), fields.len());
    assert_eq!(
        entries,
        vec![
            AttribEntry { location: 0, components: 3, normalized: false, offset: 0, stride: 24 },
            AttribEntry { location: 1, components: 3, normalized: false, offset: 12, stride: 24 },
        ]
    );
}

#[test]
fn descriptor_offsets_and_stride_for_a_three_field_record() {
    let fields = vec![
        FieldSpec { location: 0, components: 2 },
        FieldSpec { location: 1, components: 4 },
        FieldSpec { location: 2, components: 1 },
    ];
    let entries = attrib_entries(&fields);
    assert_eq!(entries.len(), 3);
    let total = record_total_size(&fields);
    assert_eq!(total, 28);
    let mut sum: usize = 0;
    for (f, e) in fields.iter().zip(entries.iter()) {
        assert_eq!(e.offset, sum);
        assert_eq!(e.stride, total);
        assert_eq!(e.location, f.location);
        assert_eq!(e.components, f.components);
        assert!(!e.normalized);
        sum += (f.components * COMPONENT_BYTES) as usize;
    }
    // the fields' byte sizes, summed in declared order, stay within the record
    assert!(sum <= total);
}

#[test]
fn vertex_record_is_24_bytes_and_three_of_them_are_72() {
    assert_eq!(vertex_stride(), 24);
    assert_eq!(vertex_buffer_size(TRIANGLE_VERTEX_COUNT), 72);
}

#[test]
fn duplicating_the_handle_does_not_load_again() {
    let calls = Cell::new(0usize);
    let gl = Gl::load_with(|_name| {
        calls.set(calls.get() + 1);
        0x1000 + calls.get() as u64
    });
    let loaded = calls.get();
    assert_eq!(loaded, symbol_names().len());
    let dup = gl.clone();
    let dup2 = dup.clone();
    assert_eq!(calls.get(), loaded);
    assert_eq!(dup.symbol_count(), gl.symbol_count());
    for i in 0..gl.symbol_count() {
        assert_eq!(dup.addr(i), gl.addr(i));
        assert_eq!(dup2.addr(i), gl.addr(i));
    }
}

#[test]
fn unresolved_names_are_kept_as_zero_addresses() {
    let gl = Gl::load_with(|name| if name == "glClear" { 7 } else { 0 });
    let names = symbol_names();
    for i in 0..gl.symbol_count() {
        assert_eq!(gl.is_resolved(i), names[i] == "glClear");
    }
}

#[test]
fn build_from_valid_sources_succeeds() {
    let r = build_checked(ok_report(), ok_report(), Some(ok_report()), 42);
    let program = r.expect("both stages compiled and linked");
    assert_eq!(program.id(), 42);
}

#[test]
fn releasing_hands_the_identifier_back() {
    let program = build_checked(ok_report(), ok_report(), Some(ok_report()), 7).unwrap();
    assert_eq!(program.release(), 7);
}

#[test]
fn activate_twice_is_activate_once() {
    let r = build_checked(ok_report(), ok_report(), Some(ok_report()), 42);
    let program = r.unwrap();
    let start = PipelineState { active_program: 0, bound_vertex_array: 3 };
    let once = program.set_used(&start);
    let twice = program.set_used(&once);
    assert_eq!(once, twice);
    assert_eq!(once.active_program, 42);
    assert_eq!(once.bound_vertex_array, 3);
}

#[test]
fn invalid_vertex_source_fails_naming_the_vertex_stage() {
    let r = build_checked(bad_report("0:1 syntax error"), ok_report(), None, 42);
    match r {
        Err(ShaderError::Compile { stage, log }) => {
            assert_eq!(stage, Stage::Vertex);
            assert!(!log.is_empty());
            assert_eq!(log, "0:1 syntax error");
        },
        _ => panic!("expected a compile failure of the vertex stage"),
    }
}

#[test]
fn link_failure_is_distinct_from_compile_failure() {
    let r = build_checked(ok_report(), ok_report(), Some(bad_report("mismatched varying")), 42);
    match r {
        Err(ShaderError::Link { log }) => {
            assert_eq!(log, "mismatched varying");
        },
        Err(ShaderError::Compile { .. }) => panic!("a link failure must not be a compile failure"),
        _ => panic!("expected a link failure"),
    }
}

#[test]
fn stage_checks_pass_identifiers_through() {
    assert_eq!(compile_checked(Stage::Fragment, 5, ok_report()), Ok(5));
    assert_eq!(link_checked(9, ok_report()), Ok(9));
    match compile_checked(Stage::Fragment, 5, bad_report("bad")) {
        Err(ShaderError::Compile { stage, log }) => {
            assert_eq!(stage, Stage::Fragment);
            assert_eq!(log, "bad");
        },
        _ => panic!("expected a compile failure of the fragment stage"),
    }
}

#[test]
fn stage_sources_come_from_the_named_resource() {
    assert_eq!(stage_resource_path("shaders/triangle", Stage::Vertex), "shaders/triangle.vert");
    assert_eq!(stage_resource_path("shaders/triangle", Stage::Fragment), "shaders/triangle.frag");
    assert_eq!(source_loaded("shaders/triangle.vert", Some("void main() {}".to_string())),
        Ok("void main() {}".to_string()));
    match source_loaded("shaders/triangle.vert", None) {
        Err(ShaderError::ResourceLoad { name }) => assert_eq!(name, "shaders/triangle.vert"),
        _ => panic!("a missing source is a resource-load failure"),
    }
}

#[test]
fn error_messages_name_what_failed() {
    let compile = ShaderError::Compile { stage: Stage::Vertex, log: "bad token".to_string() };
    assert_eq!(compile.describe(), "Failed to compile vertex shader: bad token");
    let link = ShaderError::Link { log: "mismatch".to_string() };
    assert_eq!(link.describe(), "Failed to link program: mismatch");
    let missing = ShaderError::ResourceLoad { name: "shaders/triangle.frag".to_string() };
    assert_eq!(missing.describe(), "Failed to load resource shaders/triangle.frag");
}

#[test]
fn linking_attaches_links_detaches_and_releases() {
    let plan = link_plan(10, 11, 12);
    assert_eq!(
        plan,
        vec![
            LinkStep::Attach { program: 10, shader: 11 },
            LinkStep::Attach { program: 10, shader: 12 },
            LinkStep::Link { program: 10 },
            LinkStep::Detach { program: 10, shader: 11 },
            LinkStep::Detach { program: 10, shader: 12 },
            LinkStep::Delete { shader: 11 },
            LinkStep::Delete { shader: 12 },
        ]
    );
}

#[test]
fn setup_uploads_then_configures_the_vertex_array() {
    let fields = vertex_fields();
    let entries = attrib_entries(&fields);
    let plan = vertex_setup_plan(1, 2, 72, &entries);
    assert_eq!(
        plan,
        vec![
            SetupStep::BindArrayBuffer { buffer: 1 },
            SetupStep::BufferData { size: 72 },
            SetupStep::BindArrayBuffer { buffer: 0 },
            SetupStep::BindVertexArray { vao: 2 },
            SetupStep::BindArrayBuffer { buffer: 1 },
            SetupStep::EnableVertexAttribArray { location: 0 },
            SetupStep::VertexAttribPointer { entry: entries[0] },
            SetupStep::EnableVertexAttribArray { location: 1 },
            SetupStep::VertexAttribPointer { entry: entries[1] },
            SetupStep::BindArrayBuffer { buffer: 0 },
            SetupStep::BindVertexArray { vao: 0 },
        ]
    );
}

#[test]
fn a_quit_event_terminates_without_drawing() {
    let events = vec![Event::Other, Event::Quit, Event::Other];
    assert!(contains_quit(&events));
    let (state, commands) = frame_step(&events, 42, 2);
    assert_eq!(state, LoopState::Terminated);
    assert!(commands.is_empty());
}

#[test]
fn a_quiet_frame_issues_exactly_the_five_commands() {
    let events: Vec<Event> = Vec::new();
    let (state, commands) = frame_step(&events, 42, 2);
    assert_eq!(state, LoopState::Running);
    assert_eq!(
        commands,
        vec![
            FrameCommand::Clear,
            FrameCommand::UseProgram { program: 42 },
            FrameCommand::BindVertexArray { vao: 2 },
            FrameCommand::DrawTriangles { first: 0, count: 3 },
            FrameCommand::Present,
        ]
    );
}

#[test]
fn the_loop_runs_until_the_first_quit() {
    let batches = vec![
        vec![],
        vec![Event::Other],
        vec![Event::Other, Event::Quit],
        vec![],
    ];
    let (state, frames) = run_loop(&batches, 42, 2);
    assert_eq!(state, LoopState::Terminated);
    assert_eq!(frames.len(), 2);
    for frame in &frames {
        assert_eq!(frame.len(), 5);
        assert_eq!(frame[0], FrameCommand::Clear);
        assert_eq!(frame[3], FrameCommand::DrawTriangles { first: 0, count: 3 });
    }
    let quiet = vec![vec![], vec![Event::Other]];
    let (state, frames) = run_loop(&quiet, 42, 2);
    assert_eq!(state, LoopState::Running);
    assert_eq!(frames.len(), 2);
}

#[test]
fn a_single_cause_prints_alone() {
    let causes = vec![Cause { message: "could not open window".to_string(), trace: None }];
    assert_eq!(failure_to_string(causes), "could not open window\n");
}

#[test]
fn the_chain_prints_root_cause_first() {
    let causes = vec![
        Cause { message: "failed to build shader".to_string(), trace: None },
        Cause { message: "file not found".to_string(), trace: None },
    ];
    assert_eq!(
        failure_to_string(causes),
        "file not found\n   Which caused the following issue:\nfailed to build shader\n"
    );
}

#[test]
fn a_captured_trace_prints_on_the_cause_line() {
    let causes = vec![
        Cause { message: "outer".to_string(), trace: None },
        Cause { message: "root".to_string(), trace: Some("main.rs:10".to_string()) },
    ];
    assert_eq!(
        failure_to_string(causes),
        "root This happened at main.rs:10\n   Which caused the following issue:\nouter\n"
    );
}

#[test]
fn an_empty_trace_prints_like_none() {
    let causes = vec![Cause { message: "root".to_string(), trace: Some(String::new()) }];
    assert_eq!(failure_to_string(causes), "root\n");
}

#[test]
fn an_empty_chain_prints_nothing() {
    let causes: Vec<Cause> = Vec::new();
    assert_eq!(failure_to_string(causes), "");
}
