//! Per-asset trading parameters.

use vstd::prelude::*;
use crate::state::pubkey::Pubkey;

verus! {

/// Registration of one underlying asset.
#[derive(Clone, Copy, Debug, PartialEq, Eq)]
pub struct AssetConfig {
    /// Mint of the underlying asset.
    pub asset_mint: Pubkey,
    /// Mint of the currency that strikes and premiums are quoted in.
    pub quote_mint: Pubkey,
    /// Oracle feed that prices this asset.
    pub pyth_feed_id: [u8; 32],
    /// Whether quotes and positions on this asset are accepted.
    pub enabled: bool,
    /// Lowest strike, in percent of the current price. Advisory.
    pub min_strike_percentage: u16,
    /// Highest strike, in percent of the current price. Advisory.
    pub max_strike_percentage: u16,
    /// Shortest time to expiry, in seconds. Advisory.
    pub min_expiry_seconds: i64,
    /// Longest time to expiry, in seconds. Advisory.
    pub max_expiry_seconds: i64,
    /// Decimal places of one unit of the asset.
    pub decimals: u8,
    pub bump: u8,
}

} // verus!
