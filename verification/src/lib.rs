//! A concurrency-friendly, pluggable class-resolution core for a
//! native-to-managed binding layer.
//!
//! Embedding code may install a class-loading delegate (an object on the
//! managed side exposing a one-argument, class-returning `loadClass` method).
//! Every class-name resolution then goes through that delegate's resolution
//! method, cached once at registration; with no delegate installed, the
//! environment's built-in find-class-by-name primitive is used instead.

pub mod env;
pub mod error;
pub mod handles;
pub mod laws;
pub mod registry;
pub mod resolver;
