//! Describing Daml-LF packages to build, and checking a description.

pub mod schema;
