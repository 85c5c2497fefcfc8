//! The records of the protocol.

pub mod asset_config;
pub mod global_state;
pub mod market_maker;
pub mod position;
pub mod position_request;
pub mod pubkey;
pub mod quote;
pub mod vault;

pub use asset_config::AssetConfig;
pub use global_state::GlobalState;
pub use market_maker::MarketMaker;
pub use position::{Escrow, Position, PositionStatus};
pub use position_request::{PositionRequest, RequestStatus};
pub use pubkey::{bytes32_eq, Pubkey};
pub use quote::{
    first_strike, has_strike, is_first_strike, lemma_first_strike_at, valid_size_range, Quote,
    StrategyType, StrikeQuote,
};
pub use vault::{
    lemma_vault_invariant_holds_always, lemma_vault_op_keeps_invariant, MarketMakerVault, VaultOp,
};
