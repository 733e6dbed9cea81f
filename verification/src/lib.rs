//! Contract schema compiler with embedded validation bytecode.
//!
//! The crate builds the immutable, content-addressed artifacts that describe
//! a ledger contract type: a bytecode [`library::Library`] holding the
//! validation subroutines, a [`schema::Schema`] declaring state slots and
//! operation rules wired to exact subroutine entry points, an interface
//! binding ([`iface::IfaceImpl`]) naming the schema's internal ids for
//! outside consumers, and a [`package::SchemaPackage`] bundling all of them.
//!
//! Everything is a build-time construction: no artifact is mutated after it
//! is returned, and every failure is a structured authoring error.

pub mod canon;
pub mod errors;
pub mod iface;
pub mod isa;
pub mod library;
pub mod maps;
pub mod nia;
pub mod package;
pub mod schema;
