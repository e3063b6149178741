//! Renders an SQL syntax tree back into dialect-specific SQL text.
pub mod ast;
pub mod model;
mod emit;
mod ddl;
pub mod writer;
pub mod laws;

pub use writer::{MsSqlWriter, SqlWriter};
pub use model::RenderError;
