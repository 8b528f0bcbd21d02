//! The GPU context's process-wide mutable state, made explicit.
//!
//! A GL context keeps one "currently bound" slot per buffer target kind, one
//! for the vertex array, and one for the active program. Those slots are
//! implicit global state at the driver level; here they are an ordinary
//! record, so every operation's contract says exactly which slot it touches.

use vstd::prelude::*;

verus! {

/// The two independent buffer binding targets: per-vertex attribute data and
/// 32-bit element indices. Binding one never affects the other.
#[derive(Clone, Copy, PartialEq, Eq, Structural, Debug)]
pub enum TargetKind {
    VertexData,
    IndexData,
}

/// Explicit record of the GPU context's shared mutable state.
///
/// `next_name` models the driver's name allocator: names `1 .. next_name`
/// have been handed out, `0` is the reserved "no object" name that also
/// stands for an empty binding slot. A well-formed context therefore never
/// holds a name in a slot that was not allocated first.
#[derive(Clone, Copy, PartialEq, Eq, Structural, Debug)]
pub struct Context {
    /// The next object name the driver will hand out; names start at 1.
    pub next_name: u32,
    /// Currently bound vertex-data buffer (0 = none).
    pub vertex_buffer: u32,
    /// Currently bound index-data buffer (0 = none).
    pub index_buffer: u32,
    /// Currently bound vertex array (0 = none).
    pub vertex_array: u32,
    /// Currently active program (0 = none).
    pub program: u32,
}

impl Context {
    /// Every name sitting in a binding slot was allocated before, and name 0
    /// stays reserved.
    pub open spec fn wf(self) -> bool {
        &&& 1 <= self.next_name
        &&& self.vertex_buffer < self.next_name
        &&& self.index_buffer < self.next_name
        &&& self.vertex_array < self.next_name
        &&& self.program < self.next_name
    }

    /// The binding slot of one buffer target kind.
    pub open spec fn buffer_slot(self, target: TargetKind) -> u32 {
        match target {
            TargetKind::VertexData => self.vertex_buffer,
            TargetKind::IndexData => self.index_buffer,
        }
    }

    /// This context with one buffer target rebound to `name`.
    pub open spec fn with_buffer(self, target: TargetKind, name: u32) -> Context {
        match target {
            TargetKind::VertexData => Context { vertex_buffer: name, ..self },
            TargetKind::IndexData => Context { index_buffer: name, ..self },
        }
    }

    /// This context with the vertex-array slot rebound to `name`.
    pub open spec fn with_vertex_array(self, name: u32) -> Context {
        Context { vertex_array: name, ..self }
    }

    /// This context with the active-program slot set to `name`.
    pub open spec fn with_program(self, name: u32) -> Context {
        Context { program: name, ..self }
    }

    /// A fresh context: nothing allocated, every slot empty.
    pub fn new() -> (ctx: Context)
        ensures
            ctx.wf(),
            ctx.next_name == 1,
            ctx.vertex_buffer == 0,
            ctx.index_buffer == 0,
            ctx.vertex_array == 0,
            ctx.program == 0,
    {
        Context { next_name: 1, vertex_buffer: 0, index_buffer: 0, vertex_array: 0, program: 0 }
    }

    /// Hand out one fresh object name, as the driver's `Gen*`/`Create*` calls
    /// do. Allocation itself never fails; running out of the 32-bit name
    /// space is the one machine limit callers rule out.
    pub fn fresh_name(&mut self) -> (name: u32)
        requires
            old(self).wf(),
            old(self).next_name < u32::MAX,
        ensures
            final(self).wf(),
            name == old(self).next_name,
            1 <= name,
            final(self).next_name == old(self).next_name + 1,
            final(self).vertex_buffer == old(self).vertex_buffer,
            final(self).index_buffer == old(self).index_buffer,
            final(self).vertex_array == old(self).vertex_array,
            final(self).program == old(self).program,
    {
        let name: u32 = self.next_name;
        self.next_name = self.next_name + 1;
        name
    }

    /// Set one buffer target's binding slot to "none". Unconditionally safe:
    /// it needs no bound buffer and cannot fail.
    pub fn unbind_buffer(&mut self, target: TargetKind)
        ensures
            *final(self) == old(self).with_buffer(target, 0),
    {
        match target {
            TargetKind::VertexData => self.vertex_buffer = 0,
            TargetKind::IndexData => self.index_buffer = 0,
        }
    }

    /// Set the vertex-array binding slot to "none". Unconditionally safe.
    pub fn unbind_vertex_array(&mut self)
        ensures
            *final(self) == old(self).with_vertex_array(0),
    {
        self.vertex_array = 0;
    }
}

/// Unbinding a buffer target is idempotent: once the slot is "none", doing it
/// again is a no-op on the whole context, for every context and either target.
pub proof fn lemma_unbind_idempotent(ctx: Context, target: TargetKind)
    ensures
        ctx.with_buffer(target, 0).with_buffer(target, 0) == ctx.with_buffer(target, 0),
{
}

/// The two buffer targets are independent binding slots: rebinding one
/// leaves the other's slot — and every other part of the context — as it
/// was, for every context, either target, and any name.
pub proof fn lemma_targets_independent(ctx: Context, target: TargetKind, name: u32)
    ensures
        ctx.with_buffer(target, name).buffer_slot(other_target(target)) == ctx.buffer_slot(
            other_target(target),
        ),
        ctx.with_buffer(target, name).vertex_array == ctx.vertex_array,
        ctx.with_buffer(target, name).program == ctx.program,
        ctx.with_buffer(target, name).next_name == ctx.next_name,
{
}

/// The buffer target a given one does not touch.
pub open spec fn other_target(target: TargetKind) -> TargetKind {
    match target {
        TargetKind::VertexData => TargetKind::IndexData,
        TargetKind::IndexData => TargetKind::VertexData,
    }
}

} // verus!
