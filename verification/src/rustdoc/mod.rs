//! Rustdoc JSON: its data model, signature rendering, and artifact
//! providers.
pub mod artifact;
pub mod external;
pub mod normalize;
pub mod provider;
pub mod render;
pub mod types;
