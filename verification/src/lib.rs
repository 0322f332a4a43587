//! Virtual-memory management core for a RISC-V kernel.
//!
//! The core owns the allocation of physical frames, the geometry of the
//! translation tables of the three paging modes, and the batching of the
//! invalidations that edits to the page tables make necessary. The build
//! configuration that selects the paging mode lives beside it.

pub mod address;
pub mod align;
pub mod config;
pub mod error;
pub mod flush;
pub mod frame;
pub mod frame_laws;
pub mod mode;
pub mod order;
pub mod range;
pub mod target;

pub use address::{PhysicalAddress, VirtualAddress};
pub use config::{Config, KernelConfig, LoaderConfig, LogLevel, RawConfig};
pub use error::{Error, PlatformFault};
pub use flush::Flush;
pub use frame::{FrameAllocator, FrameState};
pub use mode::{Invalidation, MemoryMode, Mode, Sv39, Sv48, Sv57};
pub use range::AddressRangeExt;
pub use target::{Target, TargetError, TargetTriple};
