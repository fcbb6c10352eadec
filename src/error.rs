//! Errors of the producer lifecycle.
use vstd::prelude::*;

verus! {

/// Why `init` did not attach a producer.
#[derive(Debug, Clone, Copy, PartialEq, Eq, Structural)]
pub enum InitError {
    /// The caller-side object already holds a live producer.
    AlreadyInitialized,
    /// The configuration names no `bootstrap.servers`.
    MissingBootstrapServers,
    /// Every slot of the table is taken or retired.
    TableFull,
}

/// Why an operation found no live producer behind a caller-side object.
#[derive(Debug, Clone, Copy, PartialEq, Eq, Structural)]
pub enum LookupError {
    /// The object's handle is unset: never initialized, or closed.
    NotInitialized,
    /// The object's handle names a producer that has been released.
    Released,
}

/// Why `topics` returned no topic names.
#[derive(Debug, PartialEq, Eq)]
pub enum MetadataError {
    /// No live producer to ask.
    Lookup(LookupError),
    /// The broker query failed; the producer was released.
    Fetch(String),
}

} // verus!
