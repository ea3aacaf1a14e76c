//! Scaffolding for a set of procedural-macro packages: the names they are
//! given, the source files they start with and the manifest entries that wire
//! them together, each computed by a verified function.
pub mod kind;
pub mod manifest;
pub mod naming;
pub mod template;
pub mod templates;
pub mod text;
