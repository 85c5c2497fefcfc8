//! Protocol-wide configuration and counters.

use vstd::prelude::*;
use crate::state::pubkey::Pubkey;

verus! {

/// The protocol's configuration, changed only by its authority.
#[derive(Clone, Copy, Debug, PartialEq, Eq)]
pub struct GlobalState {
    /// Administrator of the protocol.
    pub authority: Pubkey,
    /// Recipient of protocol fees.
    pub treasury: Pubkey,
    /// Protocol fee in basis points.
    pub protocol_fee_bps: u16,
    /// While set, no position can be requested, confirmed or created.
    pub paused: bool,
    /// Sum of the contract sizes of all positions opened.
    pub total_volume: u64,
    /// Number of positions opened.
    pub total_positions: u64,
    pub bump: u8,
}

} // verus!
