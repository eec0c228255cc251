//! Annotated document trees: values are turned into a [`document::Document`]
//! that carries, next to the data, how each part wants to be shown (integer
//! base, string style, byte dump layout, one-line aggregates, comments).
//!
//! - [`integer`] and [`hexdump`] format the leaves: integers tagged with a
//!   base, byte buffers as hex text or as a dump.
//! - [`document`] is the tree, with its value, its equality and the shape a
//!   renderer relies on.
//! - [`annotate`] is the hook by which a value declares directives and
//!   comments for its members.
//! - [`ser`] is the traversal engine, [`outcome`] says what each of its steps
//!   may come to, and [`laws`] what holds of every traversal.
//! - [`partial`] passes ready-made documents through.

pub mod annotate;
pub mod document;
pub mod error;
pub mod hexdump;
pub mod integer;
pub mod laws;
pub mod outcome;
pub mod partial;
pub mod ser;
pub mod text;
