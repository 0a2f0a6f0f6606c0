//! Two small, fully specified plugin cores.
//!
//! `content` renders configured image dimensions in several textual formats;
//! `kv` performs read/append/write round trips against a bucket-and-key
//! store, modelled here as an in-memory map so that every operation carries
//! a proved contract. The embedding that wires these cores to a concrete
//! host (configuration lookup, host storage calls, JSON marshalling) lives
//! outside the verified library.

pub mod content;
pub mod kv;
pub mod render;
