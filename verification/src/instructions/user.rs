//! The direct way to open a position: the user signs, and request and
//! confirmation happen in one step. Kept for older callers; the two-phase
//! handshake is the regular way.

use vstd::prelude::*;
use crate::errors::{carried_out_with, ErrorCode};
use crate::instructions::opening::{open_collateral, opening_outcome};
use crate::state::asset_config::AssetConfig;
use crate::state::global_state::GlobalState;
use crate::state::market_maker::MarketMaker;
use crate::state::position::{Escrow, Position, PositionStatus};
use crate::state::pubkey::Pubkey;
use crate::state::quote::{first_strike, has_strike, Quote, StrategyType};
use crate::state::vault::MarketMakerVault;
use crate::strategy::{premium_due, OpenRouting};

verus! {

/// What the direct creation of a position touches.
#[derive(Clone, Debug, PartialEq, Eq)]
pub struct CreatePosition {
    pub global_state: GlobalState,
    pub market_maker: MarketMaker,
    /// Key under which `market_maker` is stored.
    pub market_maker_key: Pubkey,
    pub quote: Quote,
    pub asset_config: AssetConfig,
    /// The position to create.
    pub position: Position,
    /// The escrow to create for the user's collateral.
    pub position_user_vault: Escrow,
    /// The escrow to create for the maker's collateral.
    pub position_mm_vault: Escrow,
    /// The maker's vault in the token of its collateral.
    pub mm_vault: MarketMakerVault,
    /// The maker's vault in the quote currency, which pays the premium.
    pub mm_premium_vault: MarketMakerVault,
    /// The user, who signs.
    pub user: Pubkey,
    pub position_bump: u8,
    pub position_user_vault_bump: u8,
    pub position_mm_vault_bump: u8,
}

/// The position that a direct creation at `now` stores: active, unsettled,
/// for the signing user, with strategy, quote currency and expiry taken from
/// the quote.
pub open spec fn created_position(
    ctx: CreatePosition,
    position_id: u64,
    strike_price: u64,
    contract_size: u64,
    premium: u64,
    now: i64,
) -> Position {
    Position {
        position_id,
        user: ctx.user,
        market_maker: ctx.market_maker_key,
        strategy: ctx.quote.strategy,
        asset_mint: ctx.asset_config.asset_mint,
        quote_mint: ctx.quote.quote_mint,
        strike_price,
        premium_paid: premium,
        contract_size,
        created_at: now,
        expiry_timestamp: ctx.quote.expiry_timestamp,
        settlement_price: None,
        status: PositionStatus::Active,
        user_vault: ctx.position_user_vault.key,
        mm_vault_locked: ctx.position_mm_vault.key,
        bump: ctx.position_bump,
        user_vault_bump: ctx.position_user_vault_bump,
        mm_vault_bump: ctx.position_mm_vault_bump,
    }
}

/// What opening a position by the rules of `strategy` leads to: the maker's
/// collateral locked, the premium paid out of the premium vault, the escrows
/// holding what each side posted, the position stored, and the protocol's
/// position count and volume raised.
pub open spec fn open_position_outcome(
    ctx: CreatePosition,
    strategy: StrategyType,
    position_id: u64,
    strike_price: u64,
    contract_size: u64,
    premium: u64,
    now: i64,
) -> Result<(CreatePosition, OpenRouting), ErrorCode> {
    match opening_outcome(
        strategy,
        strike_price,
        contract_size,
        premium,
        ctx.asset_config.decimals,
        ctx.mm_vault,
        ctx.mm_premium_vault,
    ) {
        Err(e) => Err(e),
        Ok(opening) => {
            if ctx.global_state.total_positions + 1 > u64::MAX || ctx.global_state.total_volume
                + contract_size > u64::MAX {
                Err(ErrorCode::MathOverflow)
            } else {
                Ok(
                    (
                        CreatePosition {
                            global_state: GlobalState {
                                total_positions: (ctx.global_state.total_positions + 1) as u64,
                                total_volume: (ctx.global_state.total_volume
                                    + contract_size) as u64,
                                ..ctx.global_state
                            },
                            position: created_position(
                                ctx,
                                position_id,
                                strike_price,
                                contract_size,
                                premium,
                                now,
                            ),
                            position_user_vault: Escrow {
                                amount: opening.routing.user_collateral,
                                ..ctx.position_user_vault
                            },
                            position_mm_vault: Escrow {
                                amount: opening.routing.maker_collateral,
                                ..ctx.position_mm_vault
                            },
                            mm_vault: opening.mm_vault,
                            mm_premium_vault: opening.mm_premium_vault,
                            ..ctx
                        },
                        opening.routing,
                    ),
                )
            }
        },
    }
}

/// What a direct creation at `now` leads to: the records with the position
/// open, or the refusal. The checks are those of a request, followed by the
/// opening by the quote's strategy.
pub open spec fn create_position_outcome(
    ctx: CreatePosition,
    position_id: u64,
    strike_price: u64,
    contract_size: u64,
    now: i64,
) -> Result<(CreatePosition, OpenRouting), ErrorCode> {
    let quote = ctx.quote;
    let strike = first_strike(quote.strikes@, strike_price);
    if ctx.global_state.paused {
        Err(ErrorCode::ProtocolPaused)
    } else if !ctx.market_maker.active {
        Err(ErrorCode::MarketMakerNotActive)
    } else if !quote.active {
        Err(ErrorCode::QuoteNotActive)
    } else if !ctx.asset_config.enabled {
        Err(ErrorCode::AssetNotEnabled)
    } else if now >= quote.expiry_timestamp {
        Err(ErrorCode::QuoteExpired)
    } else if contract_size < quote.min_size {
        Err(ErrorCode::ContractSizeTooSmall)
    } else if contract_size > quote.max_size {
        Err(ErrorCode::ContractSizeTooLarge)
    } else if !has_strike(quote.strikes@, strike_price) {
        Err(ErrorCode::StrikePriceNotFound)
    } else if contract_size > strike.available_contracts {
        Err(ErrorCode::InsufficientLiquidity)
    } else if strike.premium_per_contract * contract_size > u64::MAX {
        Err(ErrorCode::MathOverflow)
    } else {
        open_position_outcome(
            ctx,
            quote.strategy,
            position_id,
            strike_price,
            contract_size,
            (strike.premium_per_contract * contract_size) as u64,
            now,
        )
    }
}

/// Stores the new position in the records: active, unsettled, pointing at
/// its two escrows.
pub fn initialize_position(
    ctx: &mut CreatePosition,
    position_id: u64,
    strike_price: u64,
    contract_size: u64,
    premium: u64,
    now: i64,
)
    ensures
        *final(ctx) == (CreatePosition {
            position: created_position(
                *old(ctx),
                position_id,
                strike_price,
                contract_size,
                premium,
                now,
            ),
            ..*old(ctx)
        }),
{
    ctx.position = Position {
        position_id,
        user: ctx.user,
        market_maker: ctx.market_maker_key,
        strategy: ctx.quote.strategy,
        asset_mint: ctx.asset_config.asset_mint,
        quote_mint: ctx.quote.quote_mint,
        strike_price,
        premium_paid: premium,
        contract_size,
        created_at: now,
        expiry_timestamp: ctx.quote.expiry_timestamp,
        settlement_price: None,
        status: PositionStatus::Active,
        user_vault: ctx.position_user_vault.key,
        mm_vault_locked: ctx.position_mm_vault.key,
        bump: ctx.position_bump,
        user_vault_bump: ctx.position_user_vault_bump,
        mm_vault_bump: ctx.position_mm_vault_bump,
    };
}

/// Opens a position by the rules of `strategy`.
fn open_position(
    ctx: &mut CreatePosition,
    strategy: StrategyType,
    position_id: u64,
    strike_price: u64,
    contract_size: u64,
    premium: u64,
    now: i64,
) -> (r: Result<OpenRouting, ErrorCode>)
    ensures
        carried_out_with(
            open_position_outcome(
                *old(ctx),
                strategy,
                position_id,
                strike_price,
                contract_size,
                premium,
                now,
            ),
            *old(ctx),
            *final(ctx),
            r,
        ),
        r is Ok ==> {
            &&& (old(ctx).mm_vault.wf() ==> final(ctx).mm_vault.wf())
            &&& (old(ctx).mm_premium_vault.wf() ==> final(ctx).mm_premium_vault.wf())
        },
{
    let opening = match open_collateral(
        strategy,
        strike_price,
        contract_size,
        premium,
        ctx.asset_config.decimals,
        &ctx.mm_vault,
        &ctx.mm_premium_vault,
    ) {
        Ok(opening) => opening,
        Err(e) => { return Err(e); },
    };
    let total_positions: u64 = match ctx.global_state.total_positions.checked_add(1) {
        Some(total) => total,
        None => { return Err(ErrorCode::MathOverflow); },
    };
    let total_volume: u64 = match ctx.global_state.total_volume.checked_add(contract_size) {
        Some(total) => total,
        None => { return Err(ErrorCode::MathOverflow); },
    };
    initialize_position(ctx, position_id, strike_price, contract_size, premium, now);
    ctx.mm_vault = opening.mm_vault;
    ctx.mm_premium_vault = opening.mm_premium_vault;
    ctx.position_user_vault.amount = opening.routing.user_collateral;
    ctx.position_mm_vault.amount = opening.routing.maker_collateral;
    ctx.global_state.total_positions = total_positions;
    ctx.global_state.total_volume = total_volume;
    Ok(opening.routing)
}

/// Opens a covered call directly: the user posts `contract_size` of the
/// underlying into the user escrow, the maker's vault locks the notional in
/// quote currency for the maker escrow, the premium leaves the maker's
/// premium vault for the user, the position is stored and the protocol's
/// counters go up.
pub fn handle_covered_call_position(
    ctx: &mut CreatePosition,
    position_id: u64,
    strike_price: u64,
    contract_size: u64,
    premium: u64,
    now: i64,
) -> (r: Result<OpenRouting, ErrorCode>)
    ensures
        carried_out_with(
            open_position_outcome(
                *old(ctx),
                StrategyType::CoveredCall,
                position_id,
                strike_price,
                contract_size,
                premium,
                now,
            ),
            *old(ctx),
            *final(ctx),
            r,
        ),
        r matches Ok(routing) ==> routing.user_collateral == contract_size,
{
    open_position(
        ctx,
        StrategyType::CoveredCall,
        position_id,
        strike_price,
        contract_size,
        premium,
        now,
    )
}

/// Opens a cash-secured put directly: the user posts the notional in quote
/// currency into the user escrow, the maker's vault locks `contract_size` of
/// the underlying for the maker escrow, the premium leaves the maker's
/// premium vault for the user, the position is stored and the protocol's
/// counters go up.
pub fn handle_cash_secured_put_position(
    ctx: &mut CreatePosition,
    position_id: u64,
    strike_price: u64,
    contract_size: u64,
    premium: u64,
    now: i64,
) -> (r: Result<OpenRouting, ErrorCode>)
    ensures
        carried_out_with(
            open_position_outcome(
                *old(ctx),
                StrategyType::CashSecuredPut,
                position_id,
                strike_price,
                contract_size,
                premium,
                now,
            ),
            *old(ctx),
            *final(ctx),
            r,
        ),
        r matches Ok(routing) ==> routing.maker_collateral == contract_size,
{
    open_position(
        ctx,
        StrategyType::CashSecuredPut,
        position_id,
        strike_price,
        contract_size,
        premium,
        now,
    )
}

/// The user opens a position against a quote in one step. Returns the token
/// movements to perform. If any of them cannot be made, the caller must drop
/// the whole creation.
pub fn handle_create_position(
    ctx: &mut CreatePosition,
    position_id: u64,
    strike_price: u64,
    contract_size: u64,
    now: i64,
) -> (r: Result<OpenRouting, ErrorCode>)
    ensures
        carried_out_with(
            create_position_outcome(*old(ctx), position_id, strike_price, contract_size, now),
            *old(ctx),
            *final(ctx),
            r,
        ),
        r is Ok ==> final(ctx).position.status == PositionStatus::Active,
{
    if ctx.global_state.paused {
        return Err(ErrorCode::ProtocolPaused);
    }
    if !ctx.market_maker.active {
        return Err(ErrorCode::MarketMakerNotActive);
    }
    if !ctx.quote.active {
        return Err(ErrorCode::QuoteNotActive);
    }
    if !ctx.asset_config.enabled {
        return Err(ErrorCode::AssetNotEnabled);
    }
    if !(now < ctx.quote.expiry_timestamp) {
        return Err(ErrorCode::QuoteExpired);
    }
    if !(contract_size >= ctx.quote.min_size) {
        return Err(ErrorCode::ContractSizeTooSmall);
    }
    if !(contract_size <= ctx.quote.max_size) {
        return Err(ErrorCode::ContractSizeTooLarge);
    }
    let strike = match ctx.quote.find_strike(strike_price) {
        Some(strike) => strike,
        None => { return Err(ErrorCode::StrikePriceNotFound); },
    };
    if !(contract_size <= strike.available_contracts) {
        return Err(ErrorCode::InsufficientLiquidity);
    }
    let premium: u64 = match premium_due(strike.premium_per_contract, contract_size) {
        Ok(premium) => premium,
        Err(e) => { return Err(e); },
    };
    match ctx.quote.strategy {
        StrategyType::CoveredCall => handle_covered_call_position(
            ctx,
            position_id,
            strike_price,
            contract_size,
            premium,
            now,
        ),
        StrategyType::CashSecuredPut => handle_cash_secured_put_position(
            ctx,
            position_id,
            strike_price,
            contract_size,
            premium,
            now,
        ),
    }
}

} // verus!
