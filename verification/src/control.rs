//! Device-control operations and their platform-specific request codes.
//!
//! Every configuration call on a virtual interface is one device-control
//! round trip: a fixed numeric request code paired with a request buffer.
//! The codes are kernel-specific constants; they are isolated here behind a
//! platform table that reports an explicit error where no equivalent exists.

use vstd::prelude::*;
use crate::addr::DecodeError;

verus! {

/// The device-control operations the interface layer issues.
#[derive(Clone, Copy, PartialEq, Eq, Structural, Debug)]
pub enum ControlOp {
    /// Create a TUN-style interface on the tunnel device node.
    CreateTun,
    /// Read the administrative flag word.
    GetFlags,
    /// Write the administrative flag word.
    SetFlags,
    /// Read the local IPv4 address.
    GetAddr,
    /// Write the local IPv4 address.
    SetAddr,
    /// Read the point-to-point peer address.
    GetDstAddr,
    /// Write the point-to-point peer address.
    SetDstAddr,
    /// Read the netmask.
    GetNetmask,
    /// Write the netmask.
    SetNetmask,
}

/// The target operating systems the request-code table knows about.
#[derive(Clone, Copy, PartialEq, Eq, Structural, Debug)]
pub enum Platform {
    Linux,
    Darwin,
    Windows,
}

/// An error from configuring a virtual interface.
#[derive(Clone, Copy, PartialEq, Eq, Structural, Debug)]
pub enum ConfigError {
    /// The requested interface name does not fit the name field.
    NameTooLong,
    /// A returned socket-address payload could not be decoded.
    Decode(DecodeError),
    /// The running platform has no equivalent of the requested control call.
    UnsupportedPlatform,
    /// The OS rejected a control call; carries the attempted operation and
    /// the OS failure code unchanged.
    Os { op: ControlOp, code: i32 },
}

/// The Linux request code for each device-control operation.
pub open spec fn spec_linux_code(op: ControlOp) -> u64 {
    match op {
        ControlOp::CreateTun => 0x400454CA,
        ControlOp::GetFlags => 0x8913,
        ControlOp::SetFlags => 0x8914,
        ControlOp::GetAddr => 0x8915,
        ControlOp::SetAddr => 0x8916,
        ControlOp::GetDstAddr => 0x8917,
        ControlOp::SetDstAddr => 0x8918,
        ControlOp::GetNetmask => 0x891B,
        ControlOp::SetNetmask => 0x891C,
    }
}

/// Look up the numeric request code for `op` on `platform`.
///
/// Only Linux codes are known; any other platform gets an explicit
/// "unsupported platform" error rather than a guessed constant.
pub fn request_code(platform: Platform, op: ControlOp) -> (r: Result<u64, ConfigError>)
    ensures
        platform == Platform::Linux ==> r == Ok::<u64, ConfigError>(spec_linux_code(op)),
        platform != Platform::Linux ==> r == Err::<u64, ConfigError>(
            ConfigError::UnsupportedPlatform,
        ),
{
    match platform {
        Platform::Linux => Ok(
            match op {
                ControlOp::CreateTun => 0x400454CA,
                ControlOp::GetFlags => 0x8913,
                ControlOp::SetFlags => 0x8914,
                ControlOp::GetAddr => 0x8915,
                ControlOp::SetAddr => 0x8916,
                ControlOp::GetDstAddr => 0x8917,
                ControlOp::SetDstAddr => 0x8918,
                ControlOp::GetNetmask => 0x891B,
                ControlOp::SetNetmask => 0x891C,
            },
        ),
        _ => Err(ConfigError::UnsupportedPlatform),
    }
}

} // verus!
