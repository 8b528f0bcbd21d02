//! The indexed draw call: the one GPU command the render loop issues each
//! frame, validated against the context's bindings.
//!
//! The driver itself checks none of this — drawing with a stale binding or
//! past the end of the index buffer is undefined behaviour at the driver
//! level. This module is the wrapper's guard: it admits a draw exactly when
//! the active program, the bound vertex array with its layout, and the two
//! bound buffers together make the command well-formed, and says which part
//! was missing otherwise.

use vstd::prelude::*;

use crate::buffer::IBO;
use crate::buffer::VBO;
use crate::context::Context;
use crate::program::Program;
use crate::vao::VAO;

verus! {

/// The primitive kinds this system draws.
#[derive(Clone, Copy, PartialEq, Eq, Structural, Debug)]
pub enum PrimitiveMode {
    Triangles,
}

/// The element index types this system draws with.
#[derive(Clone, Copy, PartialEq, Eq, Structural, Debug)]
pub enum IndexType {
    UnsignedInt,
}

/// One well-formed indexed draw command, as handed to the driver.
#[derive(Clone, Copy, PartialEq, Eq, Structural, Debug)]
pub struct DrawCall {
    /// The primitive kind rendered.
    pub mode: PrimitiveMode,
    /// How many element indices the command consumes.
    pub element_count: usize,
    /// The type of each element index.
    pub index_type: IndexType,
    /// How many whole vertex records the bound layout exposes in the bound
    /// vertex buffer — the records the indices may address.
    pub vertex_records: usize,
}

/// What kept a draw from being well-formed, by the first check that failed.
#[derive(Clone, Copy, PartialEq, Eq, Structural, Debug)]
pub enum DrawError {
    /// The program is not the active one (or not a live handle of this
    /// context).
    ProgramNotActive,
    /// The vertex array is not the bound one.
    VertexArrayNotBound,
    /// The vertex buffer is not the one bound to the vertex-data target.
    VertexBufferNotBound,
    /// The index buffer is not the one bound to the index-data target.
    IndexBufferNotBound,
    /// The vertex array has no (well-formed) attribute layout declared.
    AttributesNotConfigured,
    /// The command would consume more indices than the index buffer holds.
    CountOutOfRange,
}

/// The program is live in this context and sits in the active slot.
pub open spec fn program_active(ctx: Context, program: Program) -> bool {
    program.valid_in(ctx) && ctx.program == program.name
}

/// The vertex array is live in this context and sits in its binding slot.
pub open spec fn vertex_array_bound(ctx: Context, vao: VAO) -> bool {
    vao.valid_in(ctx) && ctx.vertex_array == vao.name
}

/// The vertex buffer is live in this context and bound to the vertex-data
/// target.
pub open spec fn vertex_buffer_bound(ctx: Context, vbo: VBO) -> bool {
    vbo.valid_in(ctx) && ctx.vertex_buffer == vbo.name
}

/// The index buffer is live in this context and bound to the index-data
/// target.
pub open spec fn index_buffer_bound(ctx: Context, ibo: IBO) -> bool {
    ibo.valid_in(ctx) && ctx.index_buffer == ibo.name
}

/// The vertex array has at least one attribute declared, and the first one
/// (the record layout the draw strides by) is well-formed.
pub open spec fn layout_declared(vao: VAO) -> bool {
    vao.attributes.len() >= 1 && vao.attributes[0].wf()
}

/// Everything an indexed draw needs: the program active, the vertex array
/// bound with a declared layout, both buffers bound, and the element count
/// within what the index buffer holds.
pub open spec fn draw_ready(
    ctx: Context,
    program: Program,
    vao: VAO,
    vbo: VBO,
    ibo: IBO,
    count: usize,
) -> bool {
    &&& program_active(ctx, program)
    &&& vertex_array_bound(ctx, vao)
    &&& vertex_buffer_bound(ctx, vbo)
    &&& index_buffer_bound(ctx, ibo)
    &&& layout_declared(vao)
    &&& count <= ibo.index_count()
}

/// Validate one indexed triangle draw against the current bindings and
/// describe the command the driver would receive. Returns the command
/// exactly when the draw is well-formed, and otherwise the first check that
/// failed, in the order the fields are checked.
pub fn draw_elements(
    ctx: &Context,
    program: &Program,
    vao: &VAO,
    vbo: &VBO,
    ibo: &IBO,
    count: usize,
) -> (r: Result<DrawCall, DrawError>)
    requires
        ctx.wf(),
    ensures
        r is Ok <==> draw_ready(*ctx, *program, *vao, *vbo, *ibo, count),
        r matches Ok(d) ==> d == (DrawCall {
            mode: PrimitiveMode::Triangles,
            element_count: count,
            index_type: IndexType::UnsignedInt,
            vertex_records: vao.attributes[0].records_in(vbo.uploaded_bytes as int) as usize,
        }),
        !program_active(*ctx, *program) ==> r == Err::<DrawCall, DrawError>(
            DrawError::ProgramNotActive,
        ),
        program_active(*ctx, *program) && !vertex_array_bound(*ctx, *vao) ==> r == Err::<
            DrawCall,
            DrawError,
        >(DrawError::VertexArrayNotBound),
        program_active(*ctx, *program) && vertex_array_bound(*ctx, *vao) && !vertex_buffer_bound(
            *ctx,
            *vbo,
        ) ==> r == Err::<DrawCall, DrawError>(DrawError::VertexBufferNotBound),
        program_active(*ctx, *program) && vertex_array_bound(*ctx, *vao) && vertex_buffer_bound(
            *ctx,
            *vbo,
        ) && !index_buffer_bound(*ctx, *ibo) ==> r == Err::<DrawCall, DrawError>(
            DrawError::IndexBufferNotBound,
        ),
        program_active(*ctx, *program) && vertex_array_bound(*ctx, *vao) && vertex_buffer_bound(
            *ctx,
            *vbo,
        ) && index_buffer_bound(*ctx, *ibo) && !layout_declared(*vao) ==> r == Err::<
            DrawCall,
            DrawError,
        >(DrawError::AttributesNotConfigured),
        program_active(*ctx, *program) && vertex_array_bound(*ctx, *vao) && vertex_buffer_bound(
            *ctx,
            *vbo,
        ) && index_buffer_bound(*ctx, *ibo) && layout_declared(*vao) && !(count
            <= ibo.index_count()) ==> r == Err::<DrawCall, DrawError>(DrawError::CountOutOfRange),
{
    if !(1 <= program.name && program.name < ctx.next_name && ctx.program == program.name) {
        return Err(DrawError::ProgramNotActive);
    }
    if !(1 <= vao.name && vao.name < ctx.next_name && ctx.vertex_array == vao.name) {
        return Err(DrawError::VertexArrayNotBound);
    }
    if !(1 <= vbo.name && vbo.name < ctx.next_name && ctx.vertex_buffer == vbo.name) {
        return Err(DrawError::VertexBufferNotBound);
    }
    if !(1 <= ibo.name && ibo.name < ctx.next_name && ctx.index_buffer == ibo.name) {
        return Err(DrawError::IndexBufferNotBound);
    }
    if vao.attributes.len() < 1 {
        return Err(DrawError::AttributesNotConfigured);
    }
    let layout = vao.attributes[0];
    if !(1 <= layout.components && layout.components <= 4) {
        return Err(DrawError::AttributesNotConfigured);
    }
    if !(count <= ibo.uploaded_bytes / 4) {
        return Err(DrawError::CountOutOfRange);
    }
    let width: u32 = match layout.component_type {
        crate::vao::ComponentType::Float32 => 4,
    };
    let stride: usize = if layout.stride == 0 {
        (layout.components * width) as usize
    } else {
        layout.stride
    };
    let records: usize = if layout.offset <= vbo.uploaded_bytes {
        (vbo.uploaded_bytes - layout.offset) / stride
    } else {
        0
    };
    Ok(DrawCall {
        mode: PrimitiveMode::Triangles,
        element_count: count,
        index_type: IndexType::UnsignedInt,
        vertex_records: records,
    })
}

/// Law: a program that a successful bootstrap handed out, once activated,
/// makes a draw well-formed — activation changes only the active-program
/// slot, so a context whose remaining draw state is ready admits the draw
/// with no driver error left possible.
pub proof fn lemma_activation_enables_draw(
    ctx: Context,
    program: Program,
    vao: VAO,
    vbo: VBO,
    ibo: IBO,
    count: usize,
)
    requires
        ctx.wf(),
        program.valid_in(ctx),
        vertex_array_bound(ctx, vao),
        vertex_buffer_bound(ctx, vbo),
        index_buffer_bound(ctx, ibo),
        layout_declared(vao),
        count <= ibo.index_count(),
    ensures
        ctx.with_program(program.name).wf(),
        draw_ready(ctx.with_program(program.name), program, vao, vbo, ibo, count),
{
}

} // verus!
