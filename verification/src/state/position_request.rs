//! Position requests: a user's intent to open a position, awaiting the
//! maker's confirmation.

use vstd::prelude::*;
use crate::state::pubkey::Pubkey;
use crate::state::quote::StrategyType;

verus! {

/// Where a request stands. A request starts `Pending`; confirmation makes it
/// `Accepted`. A request that is rejected, or cleared after its window has
/// passed, is closed by the caller while its stored status is still
/// `Pending`: `Rejected` and `Expired` name those two ends and are never
/// stored.
#[derive(Clone, Copy, Debug, PartialEq, Eq, Structural)]
pub enum RequestStatus {
    Pending,
    Accepted,
    Rejected,
    Expired,
}

/// A user's request to open a position against a quote.
#[derive(Clone, Copy, Debug, PartialEq, Eq)]
pub struct PositionRequest {
    /// Number of the request, unique per user.
    pub request_id: u64,
    pub user: Pubkey,
    /// Key of the market maker whose quote is requested.
    pub market_maker: Pubkey,
    /// Key of the quote.
    pub quote: Pubkey,
    pub strategy: StrategyType,
    pub asset_mint: Pubkey,
    pub quote_mint: Pubkey,
    pub strike_price: u64,
    pub contract_size: u64,
    /// Premium due on confirmation: premium per contract times contract size.
    pub premium: u64,
    pub created_at: i64,
    /// End of the confirmation window: `created_at` plus the window.
    pub expires_at: i64,
    pub status: RequestStatus,
    pub bump: u8,
}

impl PositionRequest {
    /// Whether the confirmation window has passed at `current_timestamp`.
    pub fn is_expired(&self, current_timestamp: i64) -> (expired: bool)
        ensures
            expired == (current_timestamp >= self.expires_at),
    {
        current_timestamp >= self.expires_at
    }

    /// Whether the request still awaits the maker's answer.
    pub fn is_pending(&self) -> (pending: bool)
        ensures
            pending == (self.status == RequestStatus::Pending),
    {
        self.status == RequestStatus::Pending
    }
}

} // verus!
