//! Hardware inventory records absorbed from a native detection library.
//!
//! The native side hands out foreign memory; the embedding program copies it
//! into the plain snapshots of [`foreign`] and the record modules, this
//! library validates and converts them into owned records, and [`query`]
//! decides when foreign memory is fetched and released.
pub mod battery;
pub mod cpu;
pub mod disk;
pub mod error;
pub mod foreign;
pub mod gpu;
pub mod mainboard;
pub mod memory;
pub mod network;
pub mod os;
pub mod query;
pub mod record;
pub mod text;
