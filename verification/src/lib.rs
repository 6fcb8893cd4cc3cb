//! Core engine of a bonding-curve automated market maker: checked arithmetic,
//! fixed-point square-root pricing, fee decomposition, swap orchestration with
//! graduation capping, and the curve lifecycle state machine.
use vstd::prelude::*;

pub mod bonding_curve;
pub mod cashback;
pub mod config;
pub mod constants;
pub mod curve;
pub mod errors;
pub mod events;
pub mod instructions;
pub mod liquidity_distribution;
pub mod math;
pub mod params;
pub mod wide;

verus! {

/// A 32-byte account address, as the surrounding execution environment
/// hands it in; opaque to the engine.
pub type Pubkey = [u8; 32];

} // verus!
