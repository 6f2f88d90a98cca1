//! The element tree: a navigable, owned form of a Daml-LF archive.

pub mod types;
pub mod expr;
pub mod data;
pub mod interface;
pub mod keyed;
pub mod module;
pub mod package;
pub mod validate;
pub mod references;
pub mod visitor;
