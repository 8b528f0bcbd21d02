//! Program linking and the bootstrap builder.
//!
//! A program is the linked combination of compiled shader stages — the unit
//! actually activated for drawing. As with compilation, the driver decides
//! whether a link succeeds; the application hands the reply in and this
//! module holds the decision logic and the bootstrap composition.

use vstd::prelude::*;

use crate::context::Context;
use crate::shader::Shader;
use crate::shader::StageKind;
use crate::shader::StatusReport;

verus! {

/// What stopped the bootstrap build: a stage that would not compile, or a
/// program that would not link. The payload is the driver's log verbatim.
#[derive(Debug)]
pub struct BuildError {
    pub failed: FailedStep,
    pub log: String,
}

/// The step of the bootstrap pipeline that failed.
#[derive(Clone, Copy, PartialEq, Eq, Structural, Debug)]
pub enum FailedStep {
    Compile(StageKind),
    Link,
}

/// A linked program handle. Values exist only for programs whose link
/// succeeded; releasing one consumes it.
pub struct Program {
    /// The driver-side object name (never 0).
    pub name: u32,
}

impl Program {
    /// The handle was allocated by this context's name allocator.
    pub open spec fn valid_in(self, ctx: Context) -> bool {
        1 <= self.name && self.name < ctx.next_name
    }

    /// Link a non-empty set of compiled stages into one program. The driver
    /// allocates a program name and attaches every stage either way; the
    /// reply decides the outcome. Attached shaders stay owned by the caller:
    /// linking does not absorb or release them.
    pub fn link(
        ctx: &mut Context,
        stages: &Vec<Shader>,
        report: StatusReport,
    ) -> (r: Result<Program, String>)
        requires
            old(ctx).wf(),
            old(ctx).next_name < u32::MAX,
            stages.len() >= 1,
        ensures
            final(ctx).wf(),
            final(ctx).next_name == old(ctx).next_name + 1,
            final(ctx).vertex_buffer == old(ctx).vertex_buffer,
            final(ctx).index_buffer == old(ctx).index_buffer,
            final(ctx).vertex_array == old(ctx).vertex_array,
            final(ctx).program == old(ctx).program,
            report.success ==> (r matches Ok(p)
                && p.name == old(ctx).next_name
                && p.valid_in(*final(ctx))),
            !report.success ==> (r matches Err(log) && log == report.log),
    {
        let name: u32 = ctx.fresh_name();
        if report.success {
            Ok(Program { name })
        } else {
            Err(report.log)
        }
    }

    /// Make this program the active one. The context keeps a single active
    /// slot: activating one program displaces whatever was active before.
    pub fn set(&self, ctx: &mut Context)
        requires
            old(ctx).wf(),
            self.valid_in(*old(ctx)),
        ensures
            final(ctx).wf(),
            *final(ctx) == old(ctx).with_program(self.name),
    {
        ctx.program = self.name;
    }

    /// The raw driver-side identifier, for uniform-location lookups by the
    /// external render loop.
    pub fn id(&self) -> (r: u32)
        ensures
            r == self.name,
    {
        self.name
    }

    /// Release the program object. Unconditionally safe, and it must not
    /// re-release the attached shaders — those stay with their own owner.
    /// The driver keeps a deleted program usable while it is still active,
    /// so no binding slot changes here.
    pub fn delete(self) {
    }
}

/// Bootstrap builder: compile the vertex stage, compile the fragment stage,
/// link the two. The first failure wins — if both stages would fail, only
/// the vertex diagnostic surfaces, by design — and its log is propagated
/// verbatim. No binding slot is touched on any path.
pub fn create_program(
    ctx: &mut Context,
    vertex_source: &str,
    fragment_source: &str,
    vertex_report: StatusReport,
    fragment_report: StatusReport,
    link_report: StatusReport,
) -> (r: Result<Program, BuildError>)
    requires
        old(ctx).wf(),
        old(ctx).next_name + 3 <= u32::MAX,
    ensures
        final(ctx).wf(),
        final(ctx).vertex_buffer == old(ctx).vertex_buffer,
        final(ctx).index_buffer == old(ctx).index_buffer,
        final(ctx).vertex_array == old(ctx).vertex_array,
        final(ctx).program == old(ctx).program,
        !vertex_report.success ==> (r matches Err(e)
            && e.failed == FailedStep::Compile(StageKind::Vertex)
            && e.log == vertex_report.log
            && final(ctx).next_name == old(ctx).next_name + 1),
        vertex_report.success && !fragment_report.success ==> (r matches Err(e)
            && e.failed == FailedStep::Compile(StageKind::Fragment)
            && e.log == fragment_report.log
            && final(ctx).next_name == old(ctx).next_name + 2),
        vertex_report.success && fragment_report.success && !link_report.success ==> (r matches Err(e)
            && e.failed == FailedStep::Link
            && e.log == link_report.log
            && final(ctx).next_name == old(ctx).next_name + 3),
        vertex_report.success && fragment_report.success && link_report.success ==> (r matches Ok(p)
            && p.name == old(ctx).next_name + 2
            && p.valid_in(*final(ctx))
            && final(ctx).next_name == old(ctx).next_name + 3),
{
    let vertex_stage: Shader = match Shader::compile(ctx, vertex_source, StageKind::Vertex, vertex_report) {
        Ok(s) => s,
        Err(log) => {
            return Err(BuildError { failed: FailedStep::Compile(StageKind::Vertex), log });
        },
    };
    let fragment_stage: Shader = match Shader::compile(ctx, fragment_source, StageKind::Fragment, fragment_report) {
        Ok(s) => s,
        Err(log) => {
            return Err(BuildError { failed: FailedStep::Compile(StageKind::Fragment), log });
        },
    };
    let stages: Vec<Shader> = vec![vertex_stage, fragment_stage];
    match Program::link(ctx, &stages, link_report) {
        Ok(p) => Ok(p),
        Err(log) => Err(BuildError { failed: FailedStep::Link, log }),
    }
}

} // verus!
