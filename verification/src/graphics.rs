pub mod call;
pub mod context;
pub mod gl_wrapper;
pub mod program_build;
pub mod text;
