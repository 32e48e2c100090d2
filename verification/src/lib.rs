//! A safety boundary around an external binary-signature scanning engine,
//! together with the build orchestration that produces the engine's native
//! artifacts.
//!
//! The engine itself is an opaque native component reached over a C ABI; this
//! crate holds the verified logic around that boundary:
//!
//! * [`flags`] models the scan capability bitset,
//! * [`facade`] validates inputs, plans each engine call, decodes each engine
//!   reply and enforces the copy-then-free ownership discipline,
//! * [`orchestrator`] decides, step by step, which external acquisition and
//!   build work has to run for a build target,
//! * [`link_plan`] derives the linker directives for a finished artifact.
//!
//! The process spawns and the actual C calls live outside this crate; they
//! act on the call descriptors and sessions defined here and feed the results
//! back as plain values.

pub mod error;
pub mod facade;
pub mod flags;
pub mod link_plan;
pub mod orchestrator;
pub mod utf8_scan;

pub use crate::error::Error;
pub use crate::facade::load_database;
pub use crate::facade::load_status;
pub use crate::facade::scan_file;
pub use crate::facade::scan_file_with_db;
pub use crate::facade::scan_memory;
pub use crate::facade::scan_memory_with_db;
pub use crate::facade::ScanSession;
pub use crate::flags::Capability;
pub use crate::flags::ScanFlags;
