//! Typed casting layer for a memoized task runtime.
//!
//! Every result a task computes is published by a backend as a type-erased
//! cell: an erased value together with a runtime type identity.  This crate
//! provides the one place where that erasure is reversed: casting a cell
//! into a strongly typed, read-only reference (by concrete type) or into a
//! reference restricted to a declared capability interface (by trait), and
//! the resolution state machine that bridges an opaque handle to a typed
//! reference across the backend's asynchronous boundary.

pub mod builtin;
pub mod cast;
pub mod cell;
pub mod resolve;
