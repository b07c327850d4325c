//! The fixture workspace's crates: a miniature async runtime library
//! (`runtime`, `writer`, `error`, `encoding`), an application wiring it
//! together (`app`), and inspection helpers (`tools`). They exist to be
//! indexed: a small but realistically documented Rust API.
pub mod app;
pub mod encoding;
pub mod error;
pub mod runtime;
pub mod tools;
pub mod writer;

use vstd::prelude::*;

verus! {

/// A byte buffer, for readability in public signatures.
pub type Bytes = Vec<u8>;

} // verus!
