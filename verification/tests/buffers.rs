//! Buffer objects, binding slots, uploads, and release ordering.

use globject::buffer::IBO;
use globject::buffer::VBO;
use globject::context::Context;
use globject::context::TargetKind;
use globject::vao::VAO;

#[test]
fn vbo_upload_records_byte_length() {
    let mut ctx = Context::new();
    let mut vbo = VBO::gen(&mut ctx);
    assert_eq!(vbo.uploaded_bytes, 0);
    let scalars: Vec<u32> = vec![0; 6];
    vbo.set(&mut ctx, &scalars);
    assert_eq!(vbo.uploaded_bytes, 24);
    assert_eq!(ctx.vertex_buffer, vbo.name);
}

#[test]
fn ibo_upload_records_byte_length() {
    let mut ctx = Context::new();
    let mut ibo = IBO::gen(&mut ctx);
    let indices: Vec<u32> = vec![0, 1, 2];
    ibo.set(&mut ctx, &indices);
    assert_eq!(ibo.uploaded_bytes, 12);
    assert_eq!(ctx.index_buffer, ibo.name);
}

#[test]
fn target_kinds_are_independent_slots() {
    let mut ctx = Context::new();
    let vbo = VBO::gen(&mut ctx);
    let ibo = IBO::gen(&mut ctx);
    vbo.bind(&mut ctx);
    assert_eq!(ctx.vertex_buffer, vbo.name);
    assert_eq!(ctx.index_buffer, 0);
    ibo.bind(&mut ctx);
    assert_eq!(ctx.vertex_buffer, vbo.name);
    assert_eq!(ctx.index_buffer, ibo.name);
    ctx.unbind_buffer(TargetKind::IndexData);
    assert_eq!(ctx.vertex_buffer, vbo.name);
    assert_eq!(ctx.index_buffer, 0);
}

#[test]
fn unbind_twice_is_a_noop() {
    let mut ctx = Context::new();
    let vbo = VBO::gen(&mut ctx);
    vbo.bind(&mut ctx);
    ctx.unbind_buffer(TargetKind::VertexData);
    let after_once = ctx;
    ctx.unbind_buffer(TargetKind::VertexData);
    assert_eq!(ctx, after_once);
    ctx.unbind_buffer(TargetKind::IndexData);
    let after_once = ctx;
    ctx.unbind_buffer(TargetKind::IndexData);
    assert_eq!(ctx, after_once);
}

#[test]
fn gen_hands_out_distinct_names() {
    let mut ctx = Context::new();
    let a = VBO::gen(&mut ctx);
    let b = VBO::gen(&mut ctx);
    let c = IBO::gen(&mut ctx);
    let d = VAO::gen(&mut ctx);
    assert_ne!(a.name, b.name);
    assert_ne!(b.name, c.name);
    assert_ne!(c.name, d.name);
    assert_ne!(a.name, 0);
}

#[test]
fn release_clears_the_bound_slot() {
    let mut ctx = Context::new();
    let vbo = VBO::gen(&mut ctx);
    vbo.bind(&mut ctx);
    let name = vbo.name;
    assert_eq!(ctx.vertex_buffer, name);
    vbo.delete(&mut ctx);
    assert_eq!(ctx.vertex_buffer, 0);
}

#[test]
fn release_never_fails_whatever_the_state() {
    let mut ctx = Context::new();
    // Never bound at all.
    let vbo = VBO::gen(&mut ctx);
    vbo.delete(&mut ctx);
    // Displaced by a later binding.
    let ibo_a = IBO::gen(&mut ctx);
    let ibo_b = IBO::gen(&mut ctx);
    ibo_a.bind(&mut ctx);
    ibo_b.bind(&mut ctx);
    ibo_a.delete(&mut ctx);
    ibo_b.delete(&mut ctx);
    // A vertex array released after its slot was already cleared.
    let vao = VAO::gen(&mut ctx);
    vao.bind(&mut ctx);
    ctx.unbind_vertex_array();
    vao.delete(&mut ctx);
    assert_eq!(ctx.vertex_array, 0);
}
