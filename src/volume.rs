//! The volume, kept in whole steps of a tenth of full gain.
use vstd::prelude::*;

verus! {

/// Full gain, in steps of a tenth.
pub const MAX_VOLUME: u8 = 10;

/// The volume a new player starts with: half of full gain.
pub const INITIAL_VOLUME: u8 = 5;

/// One step louder, clamped to full gain: `min(v + 1, MAX_VOLUME)`.
pub open spec fn raised(v: nat) -> nat {
    if v < MAX_VOLUME {
        v + 1
    } else {
        MAX_VOLUME as nat
    }
}

/// One step quieter, clamped to silence: `max(v - 1, 0)`.
pub open spec fn lowered(v: nat) -> nat {
    if v >= 1 {
        (v - 1) as nat
    } else {
        0
    }
}

/// Raises the volume by one step, never past full gain.
pub fn raise(v: u8) -> (r: u8)
    ensures
        r == raised(v as nat),
{
    if v < MAX_VOLUME {
        v + 1
    } else {
        MAX_VOLUME
    }
}

/// Lowers the volume by one step, never below silence.
pub fn lower(v: u8) -> (r: u8)
    ensures
        r == lowered(v as nat),
{
    if v >= 1 {
        v - 1
    } else {
        0
    }
}

/// The volume as a percentage of full gain.
pub fn percent(v: u8) -> (r: u8)
    requires
        v <= MAX_VOLUME,
    ensures
        r == v * 10,
        r <= 100,
{
    v * 10
}

} // verus!
