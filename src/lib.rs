//! Lifecycle of native message producers shared with a managed runtime.
//!
//! Producer instances live in a [`slots::SlotTable`] and are named to the
//! caller by generation-checked integer handles ([`handle`]). The caller-side
//! object ([`facade::DefaultRustKafkaProducer`]) holds one such handle and
//! drives `init`, `send`, `topics` and `close` against the table.
pub mod handle;
pub mod slots;
pub mod error;
pub mod config;
pub mod delivery;
pub mod facade;
pub mod lifecycle;
