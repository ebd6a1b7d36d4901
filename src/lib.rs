//! Conversion code generation between hand-written Rust data types and the
//! accessors that the Cap'n Proto schema compiler emits.
//!
//! A declaration is described by the syntax model of [`syntax`]. The
//! classifier of [`parsers`] (with the attribute rules of [`attrs`]) turns it
//! into the type model of [`models`], enforcing the structural rules of the
//! wire format. [`generators`] and [`impls`] derive from that model the
//! writer, reader and conversion operations of each type. [`laws`] states
//! what holds of their shape, and [`semantics`], over a model of the
//! builder and reader views, that what they write they read back.
//! [`lists`] holds the bulk list conversions and [`examples`] the data types
//! of the example schema.

pub mod attrs;
pub mod error;
pub mod examples;
pub mod generators;
pub mod impls;
pub mod laws;
pub mod lists;
pub mod models;
pub mod names;
pub mod parsers;
pub mod remote;
pub mod semantics;
pub mod syntax;
pub mod vecs;

pub use names::capitalize_first_letter;
pub use remote::RemoteEnum;
