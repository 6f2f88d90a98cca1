//! Daml-LF archives: decoding the LF2 package model into a navigable element
//! tree, validating it, and describing packages to build.

pub mod version;
pub mod error;
pub mod element;
pub mod lf2;
pub mod text;
pub mod results;
pub mod convert;
pub mod payload;
pub mod archive;
pub mod emit;
pub mod datetime;
pub mod grpc_util;
pub mod canton_auth;
pub mod package;
