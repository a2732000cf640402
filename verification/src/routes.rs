//! The handlers, one module per resource.

pub mod health;
pub mod llm;
pub mod students;
