//! The diff pipeline: protocol types, extraction, highlighting and the worker.

pub mod extract;
pub mod highlight;
pub mod layout;
pub mod resolve;
pub mod style;
pub mod syntax;
pub mod text;
pub mod types;
pub mod words;
pub mod worker;
