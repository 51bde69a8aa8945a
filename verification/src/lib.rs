//! Verified core of a TUN-over-UDP tunnel.
//!
//! The crate models the control plane of a kernel point-to-point virtual
//! interface (request encoding, flag arithmetic, device-control semantics)
//! and the data plane of a readiness-driven forwarding loop, and proves
//! their contracts. The surrounding process (device node I/O, ioctl calls,
//! sockets, readiness polling) lives outside the verified library and
//! drives it with plain values.

pub mod addr;
pub mod control;
pub mod device;
pub mod engine;
pub mod flags;
pub mod ifreq;
