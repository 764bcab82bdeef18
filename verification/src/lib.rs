//! AetherScript compiler support library: the abstract syntax used by the
//! standard library descriptions, the standard library registry, and the
//! release tooling's configuration model and decision logic.

pub mod ast;
pub mod error;
pub mod text;
pub mod keyed;
pub mod checksum;
pub mod stdlib;
pub mod release;
pub mod semantic;
pub mod resource;
