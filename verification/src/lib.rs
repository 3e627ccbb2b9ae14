//! A verified iterator-to-stable-handle bridge over an opaque image
//! library.
//!
//! The heart of the crate is a type-erasure layer: any composition of
//! iterator combinators, each of which would normally be a distinct
//! statically-typed adapter, is stored behind one fixed-size handle that
//! supports only two operations, advancing and destroying.  Every handle
//! carries a mathematical view, the sequence of opaque items it will
//! yield, and each combinator and terminal operation is specified
//! against that view.  Caller-supplied functions are modelled by a
//! caller-table trait whose answers are pinned to spec-level functions,
//! so a pipeline's view is a function of its source items and the
//! caller table alone.
//!
//! Around the bridge stands a thin, contract-checked surface over the
//! image library: decoding from memory, pixel access, geometric
//! transforms, and the translation of its errors into stable codes.

pub mod hooks;
pub mod item;
pub mod dynimage;
pub mod errors;
pub mod iter;
pub mod thin;
