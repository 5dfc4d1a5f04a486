//! Host side of natively compiled compiler extensions: where an extension's
//! shared library is built and found, how its binary interface is resolved,
//! and how token streams cross that interface.

pub mod artifact;
pub mod package;
pub mod builder;
pub mod error;
pub mod interface;
pub mod wire;
pub mod extension;
pub mod builtin;
