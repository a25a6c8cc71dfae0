//! A minimal single-window rendering demo, as a library: the decisions of the
//! render loop, the outcome of shader compilation and linking, the mesh loader
//! and the geometry upload plan. Window, context and graphics calls are made by
//! the program around it.

pub mod render_loop;
pub mod shader;
pub mod mesh;
pub mod obj_text;
pub mod geometry;
pub mod context;
