//! Starlark-facing Python resource values: resource locations, add-collection
//! contexts, and the attributes that build scripts read and write on resources.

pub mod context;
pub mod error;
pub mod laws;
pub mod location;
pub mod outside;
pub mod resource;
pub mod resource_value;
pub mod text;
pub mod value;
