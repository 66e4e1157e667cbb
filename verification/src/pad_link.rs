//! How the cadence of raw pad reports is judged, shared so every tool reaches the same verdict
//! about the same link.
use vstd::prelude::*;

verus! {

/// Under this, a late report is invisible to whoever is driving.
pub const NOTABLE_MS: u64 = 100;
/// Where `robotd` zeroes the velocity: the default of its `safety.deadman_ms`.
pub const DEADMAN_MS: u64 = 500;
/// Past this, silence is the operator rather than the radio.
pub const IDLE_MS: u64 = 5000;

} // verus!
