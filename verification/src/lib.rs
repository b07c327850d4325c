use vstd::prelude::*;

pub mod cargo;
pub mod config;
pub mod config_docs;
pub mod demo;
pub mod dump;
pub mod error;
pub mod eval;
pub mod id;
pub mod listing;
pub mod mcp;
pub mod model;
pub mod paths;
pub mod pipeline;
pub mod query;
pub mod rustdoc;
pub mod store;
pub mod text;
pub mod workspace;

verus! {
} // verus!
