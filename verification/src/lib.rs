//! A diagnostic reporting library: it describes the host machine, the
//! installed toolchain, and the current project's declared and resolved
//! dependency versions, as plain text.
//!
//! The crate is organised as a single-pass pipeline: a selector decides
//! which report sections to produce, each reporter builds an immutable
//! value record, and a renderer turns each record into text. Every
//! fallible lookup degrades to a sentinel string ("Unknown", "not
//! found.") rather than an error, so rendering is total.

pub mod numfmt;
pub mod project;
pub mod render;
pub mod selector;
pub mod system;
pub mod tokens;
pub mod toolchain;
