//! Decision logic of a single-operator stack deployment helper.

pub mod archive;
pub mod bucket;
pub mod config;
pub mod convergence;
pub mod error;
pub mod json;
pub mod locator;
pub mod parameters;
pub mod publish;
pub mod template;
pub mod text;
