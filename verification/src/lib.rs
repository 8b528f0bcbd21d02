//! A verified model of a small OpenGL resource wrapper: shader compilation,
//! program linking, vertex/index buffer objects, vertex array layout, and the
//! process-wide binding slots of the GPU context.
//!
//! The GPU driver itself is an external collaborator: its calls are unsafe
//! foreign functions issued by the surrounding application. This library holds
//! the logic around those calls — which handle is bound where, what a compile
//! or link reply means, how a layout strides through an uploaded buffer — as
//! explicit data with proved contracts. The application pairs each driver call
//! with the matching model operation and feeds the driver's replies back in.

pub mod buffer;
pub mod context;
pub mod draw;
pub mod program;
pub mod shader;
pub mod vao;
