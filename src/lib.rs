//! A minimal virtual-machine monitor core that boots a legacy real-mode
//! executable inside a hardware-virtualized guest: capability negotiation,
//! virtual-CPU configuration, VM-exit classification, the interrupt bridge to
//! the guest service emulator, and the lifecycle of one monitor session.
pub mod caps;
pub mod config;
pub mod vmcs;
pub mod bridge;
pub mod exit;
pub mod memory;
pub mod session;
