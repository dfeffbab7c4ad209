//! Chunked, content-addressed blob storage over a replicated record substrate.
//!
//! A payload is stored as blocks, each addressed by the digest of its own
//! bytes, and a manifest (`MemoryEntry`) that lists the block addresses in
//! order. Two indexes sit beside the manifests: one by content hash, for
//! duplicate detection, and one by creator, for listing.
//!
//! The substrate is reached only by the caller: every operation here is a
//! verified decision over what the substrate answered, or a small state
//! machine that says which call to make next.

pub mod create;
pub mod entry;
pub mod index;
pub mod model;
pub mod store;

pub use create::{create_memory_entry, CreateAction, CreateRun, CreateStage};
pub use entry::{AgentKey, EntryAddress, MemoryEntry, MemoryError};
pub use index::{get_memory_entries_for_agent, memory_exists, owner_or_caller, record_addresses};
pub use store::{get_memory_bytes, get_memory_entry, get_memory_with_bytes, BlobAssembly};
