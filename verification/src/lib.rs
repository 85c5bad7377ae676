//! Core of a minimal language-intelligence server for the RustLite toy
//! language: a document store keyed by document identity, a position
//! resolver that maps a cursor location to the token under it, fixed
//! feature handlers (hover, completion, go-to-definition, references),
//! and a session dispatcher that negotiates capabilities and routes
//! requests. The wire transport is an external collaborator and lives
//! outside this library.

pub mod features;
pub mod protocol;
pub mod session;
pub mod resolve;
pub mod store;
