//! GPU buffer objects: the vertex-data buffer and the index-data buffer.
//!
//! Each buffer owns one driver-side name and remembers the byte length of its
//! last upload. The two target kinds are independent binding slots in the
//! [`Context`](crate::context::Context); the discipline throughout is "bind
//! immediately before the operation that needs the binding".
//!
//! Vertex data is a flat array of 32-bit scalars. The scalars themselves are
//! opaque bit patterns to this model (the application fills in the float
//! coordinates); only their count and byte width matter here, since that is
//! all the layout arithmetic reads.

use vstd::prelude::*;

use crate::context::Context;
use crate::context::TargetKind;

verus! {

/// A vertex-data buffer object. Holds per-vertex scalar attributes.
pub struct VBO {
    /// The driver-side object name (never 0).
    pub name: u32,
    /// Byte length of the last upload; 0 before the first.
    pub uploaded_bytes: usize,
}

impl VBO {
    /// The handle was allocated by this context's name allocator.
    pub open spec fn valid_in(self, ctx: Context) -> bool {
        1 <= self.name && self.name < ctx.next_name
    }

    /// Request one fresh buffer name from the driver. Never fails.
    pub fn gen(ctx: &mut Context) -> (b: VBO)
        requires
            old(ctx).wf(),
            old(ctx).next_name < u32::MAX,
        ensures
            final(ctx).wf(),
            b.valid_in(*final(ctx)),
            b.name == old(ctx).next_name,
            b.uploaded_bytes == 0,
            final(ctx).next_name == old(ctx).next_name + 1,
            final(ctx).vertex_buffer == old(ctx).vertex_buffer,
            final(ctx).index_buffer == old(ctx).index_buffer,
            final(ctx).vertex_array == old(ctx).vertex_array,
            final(ctx).program == old(ctx).program,
    {
        let name: u32 = ctx.fresh_name();
        VBO { name, uploaded_bytes: 0 }
    }

    /// Bind this buffer to the vertex-data target, displacing whatever was
    /// bound there. The index-data slot is untouched.
    pub fn bind(&self, ctx: &mut Context)
        requires
            old(ctx).wf(),
            self.valid_in(*old(ctx)),
        ensures
            final(ctx).wf(),
            *final(ctx) == old(ctx).with_buffer(TargetKind::VertexData, self.name),
    {
        ctx.vertex_buffer = self.name;
    }

    /// Submit the buffer's contents: `scalars.len()` 32-bit scalars, so
    /// exactly `4 * scalars.len()` bytes, with a static usage hint (this
    /// system never re-uploads). The driver writes through the vertex-data
    /// binding slot, so this buffer must be the one bound there.
    pub fn data(&mut self, ctx: &Context, scalars: &Vec<u32>)
        requires
            ctx.buffer_slot(TargetKind::VertexData) == old(self).name,
            scalars.len() <= usize::MAX / 4,
        ensures
            final(self).name == old(self).name,
            final(self).uploaded_bytes == scalars.len() * 4,
    {
        self.uploaded_bytes = scalars.len() * 4;
    }

    /// Upload in one step: bind, then submit the data.
    pub fn set(&mut self, ctx: &mut Context, scalars: &Vec<u32>)
        requires
            old(ctx).wf(),
            old(self).valid_in(*old(ctx)),
            scalars.len() <= usize::MAX / 4,
        ensures
            final(ctx).wf(),
            *final(ctx) == old(ctx).with_buffer(TargetKind::VertexData, old(self).name),
            final(self).name == old(self).name,
            final(self).uploaded_bytes == scalars.len() * 4,
    {
        self.bind(ctx);
        self.data(ctx, scalars);
    }

    /// Release: set the vertex-data slot back to "none", then drop the
    /// driver-side name — in that order, so no dangling bound reference is
    /// left. Unconditionally safe: no precondition, and consuming the handle
    /// closes the invalid-handle window for good.
    pub fn delete(self, ctx: &mut Context)
        ensures
            *final(ctx) == old(ctx).with_buffer(TargetKind::VertexData, 0),
    {
        ctx.unbind_buffer(TargetKind::VertexData);
    }
}

/// An index-data buffer object. Holds unsigned 32-bit element indices for
/// indexed draw calls, four bytes each.
pub struct IBO {
    /// The driver-side object name (never 0).
    pub name: u32,
    /// Byte length of the last upload; 0 before the first.
    pub uploaded_bytes: usize,
}

impl IBO {
    /// The handle was allocated by this context's name allocator.
    pub open spec fn valid_in(self, ctx: Context) -> bool {
        1 <= self.name && self.name < ctx.next_name
    }

    /// How many whole 32-bit indices the last upload holds.
    pub open spec fn index_count(self) -> int {
        self.uploaded_bytes as int / 4
    }

    /// Request one fresh buffer name from the driver. Never fails.
    pub fn gen(ctx: &mut Context) -> (b: IBO)
        requires
            old(ctx).wf(),
            old(ctx).next_name < u32::MAX,
        ensures
            final(ctx).wf(),
            b.valid_in(*final(ctx)),
            b.name == old(ctx).next_name,
            b.uploaded_bytes == 0,
            final(ctx).next_name == old(ctx).next_name + 1,
            final(ctx).vertex_buffer == old(ctx).vertex_buffer,
            final(ctx).index_buffer == old(ctx).index_buffer,
            final(ctx).vertex_array == old(ctx).vertex_array,
            final(ctx).program == old(ctx).program,
    {
        let name: u32 = ctx.fresh_name();
        IBO { name, uploaded_bytes: 0 }
    }

    /// Bind this buffer to the index-data target, displacing whatever was
    /// bound there. The vertex-data slot is untouched.
    pub fn bind(&self, ctx: &mut Context)
        requires
            old(ctx).wf(),
            self.valid_in(*old(ctx)),
        ensures
            final(ctx).wf(),
            *final(ctx) == old(ctx).with_buffer(TargetKind::IndexData, self.name),
    {
        ctx.index_buffer = self.name;
    }

    /// Submit the buffer's contents: `indices.len()` unsigned 32-bit element
    /// indices, so exactly `4 * indices.len()` bytes. The driver writes
    /// through the index-data binding slot, so this buffer must be the one
    /// bound there.
    pub fn data(&mut self, ctx: &Context, indices: &Vec<u32>)
        requires
            ctx.buffer_slot(TargetKind::IndexData) == old(self).name,
            indices.len() <= usize::MAX / 4,
        ensures
            final(self).name == old(self).name,
            final(self).uploaded_bytes == indices.len() * 4,
            final(self).index_count() == indices.len(),
    {
        self.uploaded_bytes = indices.len() * 4;
        proof {
            lemma_four_bytes_each(indices.len() as int);
        }
    }

    /// Upload in one step: bind, then submit the data.
    pub fn set(&mut self, ctx: &mut Context, indices: &Vec<u32>)
        requires
            old(ctx).wf(),
            old(self).valid_in(*old(ctx)),
            indices.len() <= usize::MAX / 4,
        ensures
            final(ctx).wf(),
            *final(ctx) == old(ctx).with_buffer(TargetKind::IndexData, old(self).name),
            final(self).name == old(self).name,
            final(self).uploaded_bytes == indices.len() * 4,
            final(self).index_count() == indices.len(),
    {
        self.bind(ctx);
        self.data(ctx, indices);
    }

    /// Release: set the index-data slot back to "none", then drop the
    /// driver-side name — in that order. Unconditionally safe.
    pub fn delete(self, ctx: &mut Context)
        ensures
            *final(ctx) == old(ctx).with_buffer(TargetKind::IndexData, 0),
    {
        ctx.unbind_buffer(TargetKind::IndexData);
    }
}

/// An upload of `n` four-byte elements holds exactly `n` whole elements.
proof fn lemma_four_bytes_each(n: int)
    requires
        0 <= n,
    ensures
        (n * 4) / 4 == n,
{
    vstd::arithmetic::div_mod::lemma_div_by_multiple(n, 4);
}

} // verus!
