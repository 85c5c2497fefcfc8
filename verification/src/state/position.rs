//! Positions: confirmed option contracts backed by two escrows.

use vstd::prelude::*;
use crate::state::pubkey::Pubkey;
use crate::state::quote::StrategyType;

verus! {

/// Where a position stands. `Active` until settlement, which makes it
/// `SettledITM` or `SettledOTM` for good. `SettledATM` is never produced.
#[derive(Clone, Copy, Debug, PartialEq, Eq, Structural)]
pub enum PositionStatus {
    Active,
    /// Settled in the money: the option was exercised.
    SettledITM,
    /// Settled out of the money: the option expired worthless.
    SettledOTM,
    SettledATM,
}

/// A confirmed option contract.
#[derive(Clone, Copy, Debug, PartialEq, Eq)]
pub struct Position {
    /// Number of the position, unique per user.
    pub position_id: u64,
    pub user: Pubkey,
    /// Key of the market maker on the other side.
    pub market_maker: Pubkey,
    pub strategy: StrategyType,
    pub asset_mint: Pubkey,
    pub quote_mint: Pubkey,
    pub strike_price: u64,
    /// Premium the user received when the position was opened.
    pub premium_paid: u64,
    pub contract_size: u64,
    pub created_at: i64,
    /// Time from which the position can be settled.
    pub expiry_timestamp: i64,
    /// Oracle price the position was settled at; `None` until settlement.
    pub settlement_price: Option<u64>,
    pub status: PositionStatus,
    /// Key of the escrow that holds the user's collateral.
    pub user_vault: Pubkey,
    /// Key of the escrow that holds the maker's collateral.
    pub mm_vault_locked: Pubkey,
    pub bump: u8,
    pub user_vault_bump: u8,
    pub mm_vault_bump: u8,
}

/// An escrow: the custody record that holds one side's collateral for one
/// position.
#[derive(Clone, Copy, Debug, PartialEq, Eq)]
pub struct Escrow {
    /// Key of the token account.
    pub key: Pubkey,
    /// Tokens held.
    pub amount: u64,
}

impl Position {
    /// Whether the position has been settled.
    pub open spec fn is_settled(&self) -> bool {
        self.status != PositionStatus::Active
    }
}

} // verus!
