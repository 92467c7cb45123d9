//! Named shared-memory segments: validated construction, a uniform handle,
//! and deterministic, exactly-once release across two backend protocols.
//!
//! The operating-system calls themselves (open, map, unmap, close) live with
//! the embedding program; this library holds everything that can be decided
//! from plain values: name encoding and recovery, the construction state
//! machine with its cleanup obligations, and the release plan.

pub mod error;
pub mod name;
pub mod segment;

pub use error::Error;
pub use segment::Backend;
pub use segment::Mapped;
pub use segment::ReleasePlan;
pub use segment::Shm;
