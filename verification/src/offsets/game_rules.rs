//! Offsets of fields of the game rules (`C_CSGameRules`).
#![allow(non_upper_case_globals)]

use vstd::prelude::*;

verus! {

/// Whether the warmup is running (`bool`).
pub const m_bWarmupPeriod: usize = 0x31;

/// Whether the match has started (`bool`).
pub const m_bHasMatchStarted: usize = 0xA4;

} // verus!
