//! VirtIO MMIO transport: discovery, validation and operation of a VirtIO
//! device exposed through a memory-mapped register block.
//!
//! The crate models the register block as an owned value ([`mmio::VirtIOHeader`])
//! whose cells are volatile wrappers, validates the magic/device-id/version
//! registers on construction, and drives feature negotiation, queue setup,
//! status signalling and interrupt acknowledgement for both the legacy
//! (page-based) and the modern (split-address) register protocols.

pub mod devtype;
pub mod layout;
pub mod mmio;
pub mod regs;
pub mod status;

pub use devtype::DeviceType;
pub use mmio::{MmioError, MmioTransport, MmioVersion, VirtIOHeader};
pub use status::DeviceStatus;
