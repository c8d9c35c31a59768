//! A cache of package sources and generated documentation, kept consistent
//! across refreshes that may fail, together with the rules by which a crate
//! analysis picks its package, target and item names.
//!
//! The library performs no I/O. Whatever has to be fetched, generated or
//! moved on disk is described as a request; the caller carries it out and
//! hands back the outcome, and the library decides what follows.

pub mod analyzer;
pub mod assoc;
pub mod cache;
pub mod item;
pub mod options;
pub mod text;
