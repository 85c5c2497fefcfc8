//! Market maker registration.

use vstd::prelude::*;
use crate::state::pubkey::Pubkey;

verus! {

/// A liquidity provider that writes options.
#[derive(Clone, Copy, Debug, PartialEq, Eq)]
pub struct MarketMaker {
    /// Wallet that controls this maker.
    pub owner: Pubkey,
    /// Whether the maker accepts new positions.
    pub active: bool,
    /// Positions opened against this maker.
    pub total_positions: u64,
    /// Positions of this maker that have been settled.
    pub completed_positions: u64,
    pub reputation_score: u16,
    pub bump: u8,
}

} // verus!
