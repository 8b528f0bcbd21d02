//! The vertex array object: the GPU-side description of how to interpret a
//! bound vertex buffer's bytes as typed attributes.
//!
//! Each enabled attribute slot records component count, component type,
//! normalized flag, stride and byte offset. The layout describes the vertex
//! buffer that is bound at configure time; rebinding a different vertex
//! buffer later reuses the same layout. This system declares exactly one
//! attribute — slot 0, two 32-bit float components, not normalized, stride
//! 8 bytes, offset 0 — i.e. a bare 2D position per vertex record.

use vstd::prelude::*;

use crate::context::Context;
use crate::context::TargetKind;

verus! {

/// The scalar component types this system's layouts use. Each component of
/// this type occupies four bytes in the vertex buffer.
#[derive(Clone, Copy, PartialEq, Eq, Structural, Debug)]
pub enum ComponentType {
    Float32,
}

/// One enabled attribute slot's layout: how the GPU strides through the
/// bound vertex buffer to read this attribute.
#[derive(Clone, Copy, PartialEq, Eq, Structural, Debug)]
pub struct AttributeLayout {
    /// The attribute slot index being enabled.
    pub slot: u32,
    /// Components per vertex record; the driver accepts 1 through 4.
    pub components: u32,
    /// The scalar type of each component.
    pub component_type: ComponentType,
    /// Whether fixed-point values are normalized when read.
    pub normalized: bool,
    /// Bytes between the starts of consecutive records; 0 means tightly
    /// packed, i.e. the records' own size.
    pub stride: usize,
    /// Byte offset of the first record within the buffer.
    pub offset: usize,
}

impl AttributeLayout {
    /// The component count the driver accepts.
    pub open spec fn wf(self) -> bool {
        1 <= self.components && self.components <= 4
    }

    /// Bytes occupied by one component.
    pub open spec fn component_width(self) -> int {
        match self.component_type {
            ComponentType::Float32 => 4,
        }
    }

    /// The stride the GPU actually steps by: a declared stride of 0 means
    /// tightly packed records of `components` components.
    pub open spec fn effective_stride(self) -> int {
        if self.stride == 0 {
            self.components * self.component_width()
        } else {
            self.stride as int
        }
    }

    /// How many whole vertex records this layout strides through in a buffer
    /// of `byte_len` bytes: full strides past the offset.
    pub open spec fn records_in(self, byte_len: int) -> int {
        if self.offset <= byte_len {
            (byte_len - self.offset) / self.effective_stride()
        } else {
            0
        }
    }
}

/// The one layout this system declares: a bare two-component 32-bit float
/// position at slot 0, not normalized, stride 8 bytes, offset 0.
pub open spec fn position_2d() -> AttributeLayout {
    AttributeLayout {
        slot: 0,
        components: 2,
        component_type: ComponentType::Float32,
        normalized: false,
        stride: 8,
        offset: 0,
    }
}

/// A vertex array object: one driver-side name and the ordered list of
/// attribute slots enabled on it so far.
pub struct VAO {
    /// The driver-side object name (never 0).
    pub name: u32,
    /// The enabled attribute slots, in declaration order.
    pub attributes: Vec<AttributeLayout>,
}

impl VAO {
    /// The handle was allocated by this context's name allocator.
    pub open spec fn valid_in(self, ctx: Context) -> bool {
        1 <= self.name && self.name < ctx.next_name
    }

    /// Request one fresh vertex-array name from the driver. Never fails; no
    /// attribute is enabled yet.
    pub fn gen(ctx: &mut Context) -> (v: VAO)
        requires
            old(ctx).wf(),
            old(ctx).next_name < u32::MAX,
        ensures
            final(ctx).wf(),
            v.valid_in(*final(ctx)),
            v.name == old(ctx).next_name,
            v.attributes@ == Seq::<AttributeLayout>::empty(),
            final(ctx).next_name == old(ctx).next_name + 1,
            final(ctx).vertex_buffer == old(ctx).vertex_buffer,
            final(ctx).index_buffer == old(ctx).index_buffer,
            final(ctx).vertex_array == old(ctx).vertex_array,
            final(ctx).program == old(ctx).program,
    {
        let name: u32 = ctx.fresh_name();
        VAO { name, attributes: Vec::new() }
    }

    /// Bind this vertex array, displacing whatever was bound there.
    pub fn bind(&self, ctx: &mut Context)
        requires
            old(ctx).wf(),
            self.valid_in(*old(ctx)),
        ensures
            final(ctx).wf(),
            *final(ctx) == old(ctx).with_vertex_array(self.name),
    {
        ctx.vertex_array = self.name;
    }

    /// Enable one attribute slot and record its layout. The layout describes
    /// the vertex buffer bound right now, so one must be bound, and this
    /// vertex array must itself be the bound one for the driver to record
    /// the pointer into it.
    pub fn configure(&mut self, ctx: &Context, layout: AttributeLayout)
        requires
            ctx.vertex_array == old(self).name,
            ctx.buffer_slot(TargetKind::VertexData) != 0,
            layout.wf(),
        ensures
            final(self).name == old(self).name,
            final(self).attributes@ == old(self).attributes@.push(layout),
    {
        self.attributes.push(layout);
    }

    /// Declare this system's fixed layout in one step: bind, then enable
    /// slot 0 with the two-component float position layout.
    pub fn set(&mut self, ctx: &mut Context)
        requires
            old(ctx).wf(),
            old(self).valid_in(*old(ctx)),
            old(ctx).buffer_slot(TargetKind::VertexData) != 0,
        ensures
            final(ctx).wf(),
            *final(ctx) == old(ctx).with_vertex_array(old(self).name),
            final(self).name == old(self).name,
            final(self).attributes@ == old(self).attributes@.push(position_2d()),
    {
        self.bind(ctx);
        let layout = AttributeLayout {
            slot: 0,
            components: 2,
            component_type: ComponentType::Float32,
            normalized: false,
            stride: 8,
            offset: 0,
        };
        self.configure(ctx, layout);
    }

    /// Release: set the vertex-array slot back to "none", then drop the
    /// driver-side name — in that order. Unconditionally safe.
    pub fn delete(self, ctx: &mut Context)
        ensures
            *final(ctx) == old(ctx).with_vertex_array(0),
    {
        ctx.unbind_vertex_array();
    }
}

/// Law: through the two-component float layout, a buffer holding `count`
/// 32-bit scalars exposes exactly `count / 2` two-component vertex records —
/// the buffer is `4 * count` bytes and the layout strides by 8.
pub proof fn lemma_two_component_records(count: int)
    requires
        0 <= count,
    ensures
        position_2d().records_in(count * 4) == count / 2,
{
    let q = count / 2;
    let r = count % 2;
    vstd::arithmetic::div_mod::lemma_fundamental_div_mod(count, 2);
    assert(count * 4 == 8 * q + 4 * r);
    vstd::arithmetic::div_mod::lemma_div_multiples_vanish_fancy(q, 4 * r, 8);
}

} // verus!
