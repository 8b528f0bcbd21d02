//! Shader compilation, program linking, and the bootstrap builder, driven by
//! mocked driver replies.

use globject::context::Context;
use globject::program::create_program;
use globject::program::FailedStep;
use globject::program::Program;
use globject::shader::Shader;
use globject::shader::StageKind;
use globject::shader::StatusReport;

fn ok_report() -> StatusReport {
    StatusReport { success: true, log: String::new() }
}

fn failed_report(log: &str) -> StatusReport {
    StatusReport { success: false, log: String::from(log) }
}

#[test]
fn compile_success_yields_fresh_handle() {
    let mut ctx = Context::new();
    let r = Shader::compile(&mut ctx, "void main(){}", StageKind::Vertex, ok_report());
    let shader = r.expect("driver reported success");
    assert_eq!(shader.name, 1);
    assert_eq!(shader.stage, StageKind::Vertex);
    assert_eq!(shader.id(), 1);
    assert_eq!(ctx.next_name, 2);
}

#[test]
fn compile_failure_payload_is_driver_log() {
    let mut ctx = Context::new();
    let log = "0:1(1): error: syntax error, unexpected end of file";
    let r = Shader::compile(&mut ctx, "broken source", StageKind::Fragment, failed_report(log));
    assert_eq!(r.err().expect("driver reported failure"), log);
}

#[test]
fn compile_failure_with_empty_log_is_empty_payload() {
    let mut ctx = Context::new();
    let r = Shader::compile(&mut ctx, "broken source", StageKind::Vertex, failed_report(""));
    assert_eq!(r.err().expect("driver reported failure"), "");
}

#[test]
fn link_success_yields_fresh_handle() {
    let mut ctx = Context::new();
    let vs = Shader::compile(&mut ctx, "v", StageKind::Vertex, ok_report()).unwrap();
    let fs = Shader::compile(&mut ctx, "f", StageKind::Fragment, ok_report()).unwrap();
    let stages = vec![vs, fs];
    let program = Program::link(&mut ctx, &stages, ok_report()).expect("driver reported success");
    assert_eq!(program.name, 3);
    assert_eq!(program.id(), 3);
}

#[test]
fn link_failure_payload_is_driver_log() {
    let mut ctx = Context::new();
    let vs = Shader::compile(&mut ctx, "v", StageKind::Vertex, ok_report()).unwrap();
    let stages = vec![vs];
    let log = "error: unresolved varying";
    let r = Program::link(&mut ctx, &stages, failed_report(log));
    assert_eq!(r.err().expect("driver reported failure"), log);
}

#[test]
fn create_program_success_builds_and_activates() {
    let mut ctx = Context::new();
    let r = create_program(&mut ctx, "v", "f", ok_report(), ok_report(), ok_report());
    let program = r.expect("all driver replies were successes");
    assert_eq!(program.name, 3);
    program.set(&mut ctx);
    assert_eq!(ctx.program, 3);
}

#[test]
fn create_program_vertex_failure_wins_over_fragment() {
    let mut ctx = Context::new();
    let r = create_program(
        &mut ctx,
        "v",
        "f",
        failed_report("vertex stage log"),
        failed_report("fragment stage log"),
        ok_report(),
    );
    let e = r.err().expect("vertex compile failed");
    assert_eq!(e.failed, FailedStep::Compile(StageKind::Vertex));
    assert_eq!(e.log, "vertex stage log");
}

#[test]
fn create_program_fragment_failure_surfaces() {
    let mut ctx = Context::new();
    let r = create_program(
        &mut ctx,
        "v",
        "f",
        ok_report(),
        failed_report("fragment stage log"),
        failed_report("link log"),
    );
    let e = r.err().expect("fragment compile failed");
    assert_eq!(e.failed, FailedStep::Compile(StageKind::Fragment));
    assert_eq!(e.log, "fragment stage log");
}

#[test]
fn create_program_link_failure_surfaces() {
    let mut ctx = Context::new();
    let r = create_program(&mut ctx, "v", "f", ok_report(), ok_report(), failed_report("link log"));
    let e = r.err().expect("link failed");
    assert_eq!(e.failed, FailedStep::Link);
    assert_eq!(e.log, "link log");
}

#[test]
fn create_program_touches_no_binding_slot() {
    let mut ctx = Context::new();
    let before = ctx;
    let _ = create_program(&mut ctx, "v", "f", ok_report(), ok_report(), ok_report());
    assert_eq!(ctx.vertex_buffer, before.vertex_buffer);
    assert_eq!(ctx.index_buffer, before.index_buffer);
    assert_eq!(ctx.vertex_array, before.vertex_array);
    assert_eq!(ctx.program, before.program);
}

#[test]
fn releasing_shaders_and_programs_never_fails() {
    let mut ctx = Context::new();
    let vs = Shader::compile(&mut ctx, "v", StageKind::Vertex, ok_report()).unwrap();
    let fs = Shader::compile(&mut ctx, "f", StageKind::Fragment, ok_report()).unwrap();
    let stages = vec![vs, fs];
    let program = Program::link(&mut ctx, &stages, ok_report()).unwrap();
    program.set(&mut ctx);
    // Release in arbitrary order, active or not, shaders still attached.
    program.delete();
    for s in stages {
        s.delete();
    }
}
