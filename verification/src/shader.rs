//! Shader compilation: one GL shader stage from source text to a handle or a
//! diagnostic.
//!
//! Whether a compile succeeds is decided by the GPU driver, not by this
//! library: the application issues the foreign compile call, reads the
//! status flag and the info log back, and hands both in as a [`StatusReport`].
//! This module holds the decision that follows — a handle on success, the
//! log text (verbatim, possibly empty) as the error payload on failure.

use vstd::prelude::*;

use crate::context::Context;

verus! {

/// The shader stage kinds this system compiles.
#[derive(Clone, Copy, PartialEq, Eq, Structural, Debug)]
pub enum StageKind {
    Vertex,
    Fragment,
}

/// What the driver reports back after a compile or link request: the status
/// flag and the info log, sized exactly as the driver reported it — a
/// zero-length log is an ordinary value here, not a special case.
pub struct StatusReport {
    pub success: bool,
    pub log: String,
}

/// A compiled shader stage. Values exist only for stages whose compile
/// succeeded; releasing one consumes it, so a released handle can never be
/// used again.
pub struct Shader {
    /// The driver-side object name (never 0).
    pub name: u32,
    /// Which stage this handle was compiled as.
    pub stage: StageKind,
}

impl Shader {
    /// The handle was allocated by this context's name allocator.
    pub open spec fn valid_in(self, ctx: Context) -> bool {
        1 <= self.name && self.name < ctx.next_name
    }

    /// Compile one shader stage. The driver allocates a name either way; the
    /// reply decides the outcome. On failure the error payload is exactly the
    /// driver's log text, including the empty case.
    #[allow(unused_variables)]
    pub fn compile(
        ctx: &mut Context,
        source: &str,
        stage: StageKind,
        report: StatusReport,
    ) -> (r: Result<Shader, String>)
        requires
            old(ctx).wf(),
            old(ctx).next_name < u32::MAX,
        ensures
            final(ctx).wf(),
            final(ctx).next_name == old(ctx).next_name + 1,
            final(ctx).vertex_buffer == old(ctx).vertex_buffer,
            final(ctx).index_buffer == old(ctx).index_buffer,
            final(ctx).vertex_array == old(ctx).vertex_array,
            final(ctx).program == old(ctx).program,
            report.success ==> (r matches Ok(s)
                && s.name == old(ctx).next_name
                && s.stage == stage
                && s.valid_in(*final(ctx))),
            !report.success ==> (r matches Err(log) && log == report.log),
    {
        let name: u32 = ctx.fresh_name();
        if report.success {
            Ok(Shader { name, stage })
        } else {
            Err(report.log)
        }
    }

    /// The raw driver-side identifier, for external collaborators such as
    /// uniform-location lookups.
    pub fn id(&self) -> (r: u32)
        ensures
            r == self.name,
    {
        self.name
    }

    /// Release the shader object. Unconditionally safe: the driver-side
    /// deletion touches no binding slot, and consuming the handle closes the
    /// invalid-handle window for good.
    pub fn delete(self) {
    }
}

} // verus!
