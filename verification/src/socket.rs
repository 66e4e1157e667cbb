//! Where each service listens by default. Defaults matching the shipped units: every daemon takes
//! a `--socket` override.
use vstd::prelude::*;

verus! {

/// `updaterd`. Same value as [`crate::DEFAULT_SOCKET`].
pub const UPDATER: &'static str = "/run/updaterd.sock";
pub const ROBOT: &'static str = "/run/robotd.sock";
pub const CONFIG: &'static str = "/run/configd.sock";
/// `padd`'s raw input tap — [`crate::method::PAD_INPUT`], and nothing else.
pub const PAD: &'static str = "/run/padd/pad.sock";
/// `tofd`'s depth stream — [`crate::method::TOF_STREAM`], and nothing else.
pub const TOF: &'static str = "/run/tofd/tof.sock";

} // verus!
