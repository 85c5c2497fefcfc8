//! The two-phase handshake that opens a position: the user requests, the
//! maker confirms within the confirmation window or rejects, and anyone may
//! clear a request whose window has passed.

use vstd::prelude::*;
use crate::constants::MM_CONFIRMATION_WINDOW;
use crate::errors::{carried_out, carried_out_with, ErrorCode};
use crate::state::asset_config::AssetConfig;
use crate::state::global_state::GlobalState;
use crate::state::market_maker::MarketMaker;
use crate::state::position::{Escrow, Position, PositionStatus};
use crate::state::position_request::{PositionRequest, RequestStatus};
use crate::state::pubkey::Pubkey;
use crate::state::quote::{first_strike, has_strike, Quote, StrategyType};
use crate::state::vault::MarketMakerVault;
use crate::instructions::opening::{open_collateral, opening_outcome, Opening};
use crate::strategy::{premium_due, OpenRouting};

verus! {

/// What a request for a position touches.
#[derive(Clone, Debug, PartialEq, Eq)]
pub struct RequestPosition {
    pub global_state: GlobalState,
    /// The maker whose quote is requested.
    pub market_maker: MarketMaker,
    /// Key under which `market_maker` is stored.
    pub market_maker_key: Pubkey,
    pub quote: Quote,
    /// Key under which `quote` is stored.
    pub quote_key: Pubkey,
    pub asset_config: AssetConfig,
    /// The request to create.
    pub position_request: PositionRequest,
    /// The requesting user, who signs.
    pub user: Pubkey,
    pub position_request_bump: u8,
}

/// What a confirmation touches.
#[derive(Clone, Debug, PartialEq, Eq)]
pub struct ConfirmPosition {
    pub global_state: GlobalState,
    pub market_maker: MarketMaker,
    /// Key under which `market_maker` is stored.
    pub market_maker_key: Pubkey,
    pub position_request: PositionRequest,
    pub quote: Quote,
    pub asset_config: AssetConfig,
    /// The position to create.
    pub position: Position,
    /// The escrow to create for the user's collateral.
    pub position_user_vault: Escrow,
    /// The escrow to create for the maker's collateral.
    pub position_mm_vault: Escrow,
    /// The maker's vault in the token of its collateral.
    pub mm_vault: MarketMakerVault,
    /// The maker's vault in the quote currency, which pays the premium.
    pub mm_premium_vault: MarketMakerVault,
    /// The maker's owner, who signs.
    pub mm_owner: Pubkey,
    pub position_bump: u8,
    pub position_user_vault_bump: u8,
    pub position_mm_vault_bump: u8,
}

/// What a rejection touches.
#[derive(Clone, Copy, Debug, PartialEq, Eq)]
pub struct RejectRequest {
    pub market_maker: MarketMaker,
    /// Key under which `market_maker` is stored.
    pub market_maker_key: Pubkey,
    pub position_request: PositionRequest,
    /// The maker's owner, who signs.
    pub mm_owner: Pubkey,
}

/// What the clearing of an expired request touches.
#[derive(Clone, Copy, Debug, PartialEq, Eq)]
pub struct CancelExpiredRequest {
    pub position_request: PositionRequest,
}

/// What a request for `contract_size` at `strike_price`, made at `now`,
/// leads to: the records with the new pending request, or the refusal.
///
/// The strike's capacity is only compared with the size; it is never
/// reduced.
pub open spec fn request_position_outcome(
    ctx: RequestPosition,
    request_id: u64,
    strike_price: u64,
    contract_size: u64,
    now: i64,
) -> Result<RequestPosition, ErrorCode> {
    let quote = ctx.quote;
    let strike = first_strike(quote.strikes@, strike_price);
    if ctx.global_state.paused {
        Err(ErrorCode::ProtocolPaused)
    } else if !ctx.market_maker.active {
        Err(ErrorCode::MarketMakerNotActive)
    } else if !quote.active {
        Err(ErrorCode::QuoteNotActive)
    } else if !ctx.asset_config.enabled {
        Err(ErrorCode::AssetNotEnabled)
    } else if now >= quote.expiry_timestamp {
        Err(ErrorCode::QuoteExpired)
    } else if contract_size < quote.min_size {
        Err(ErrorCode::ContractSizeTooSmall)
    } else if contract_size > quote.max_size {
        Err(ErrorCode::ContractSizeTooLarge)
    } else if !has_strike(quote.strikes@, strike_price) {
        Err(ErrorCode::StrikePriceNotFound)
    } else if contract_size > strike.available_contracts {
        Err(ErrorCode::InsufficientLiquidity)
    } else if strike.premium_per_contract * contract_size > u64::MAX {
        Err(ErrorCode::MathOverflow)
    } else if now + MM_CONFIRMATION_WINDOW > i64::MAX {
        Err(ErrorCode::MathOverflow)
    } else {
        Ok(
            RequestPosition {
                position_request: PositionRequest {
                    request_id,
                    user: ctx.user,
                    market_maker: ctx.market_maker_key,
                    quote: ctx.quote_key,
                    strategy: quote.strategy,
                    asset_mint: quote.asset_mint,
                    quote_mint: quote.quote_mint,
                    strike_price,
                    contract_size,
                    premium: (strike.premium_per_contract * contract_size) as u64,
                    created_at: now,
                    expires_at: (now + MM_CONFIRMATION_WINDOW) as i64,
                    status: RequestStatus::Pending,
                    bump: ctx.position_request_bump,
                },
                ..ctx
            },
        )
    }
}

/// Records a user's request for a position against a quote. No funds move.
///
/// The request is pending, carries the premium of the chosen strike for the
/// requested size, and expires `MM_CONFIRMATION_WINDOW` seconds after `now`.
pub fn handle_request_position(
    ctx: &mut RequestPosition,
    request_id: u64,
    strike_price: u64,
    contract_size: u64,
    now: i64,
) -> (r: Result<(), ErrorCode>)
    ensures
        carried_out(
            request_position_outcome(*old(ctx), request_id, strike_price, contract_size, now),
            *old(ctx),
            *final(ctx),
            r,
        ),
{
    if ctx.global_state.paused {
        return Err(ErrorCode::ProtocolPaused);
    }
    if !ctx.market_maker.active {
        return Err(ErrorCode::MarketMakerNotActive);
    }
    if !ctx.quote.active {
        return Err(ErrorCode::QuoteNotActive);
    }
    if !ctx.asset_config.enabled {
        return Err(ErrorCode::AssetNotEnabled);
    }
    if !(now < ctx.quote.expiry_timestamp) {
        return Err(ErrorCode::QuoteExpired);
    }
    if !(contract_size >= ctx.quote.min_size) {
        return Err(ErrorCode::ContractSizeTooSmall);
    }
    if !(contract_size <= ctx.quote.max_size) {
        return Err(ErrorCode::ContractSizeTooLarge);
    }
    let strike = match ctx.quote.find_strike(strike_price) {
        Some(strike) => strike,
        None => { return Err(ErrorCode::StrikePriceNotFound); },
    };
    if !(contract_size <= strike.available_contracts) {
        return Err(ErrorCode::InsufficientLiquidity);
    }
    let premium: u64 = match premium_due(strike.premium_per_contract, contract_size) {
        Ok(premium) => premium,
        Err(e) => { return Err(e); },
    };
    let expires_at: i64 = match now.checked_add(MM_CONFIRMATION_WINDOW) {
        Some(expires_at) => expires_at,
        None => { return Err(ErrorCode::MathOverflow); },
    };
    ctx.position_request = PositionRequest {
        request_id,
        user: ctx.user,
        market_maker: ctx.market_maker_key,
        quote: ctx.quote_key,
        strategy: ctx.quote.strategy,
        asset_mint: ctx.quote.asset_mint,
        quote_mint: ctx.quote.quote_mint,
        strike_price,
        contract_size,
        premium,
        created_at: now,
        expires_at,
        status: RequestStatus::Pending,
        bump: ctx.position_request_bump,
    };
    Ok(())
}

/// What the collateral routing of a confirmation leads to: the maker's
/// collateral locked in its vault, the premium paid out of the premium vault,
/// and the two escrows holding what each side posted.
pub open spec fn execute_outcome(
    ctx: ConfirmPosition,
    strategy: StrategyType,
    strike_price: u64,
    contract_size: u64,
    premium: u64,
) -> Result<(ConfirmPosition, OpenRouting), ErrorCode> {
    match opening_outcome(
        strategy,
        strike_price,
        contract_size,
        premium,
        ctx.asset_config.decimals,
        ctx.mm_vault,
        ctx.mm_premium_vault,
    ) {
        Err(e) => Err(e),
        Ok(opening) => Ok(
            (
                ConfirmPosition {
                    mm_vault: opening.mm_vault,
                    mm_premium_vault: opening.mm_premium_vault,
                    position_user_vault: Escrow {
                        amount: opening.routing.user_collateral,
                        ..ctx.position_user_vault
                    },
                    position_mm_vault: Escrow {
                        amount: opening.routing.maker_collateral,
                        ..ctx.position_mm_vault
                    },
                    ..ctx
                },
                opening.routing,
            ),
        ),
    }
}

/// Stores what an opening leaves in the records of a confirmation.
fn record_opening(ctx: &mut ConfirmPosition, opening: Opening)
    ensures
        *final(ctx) == (ConfirmPosition {
            mm_vault: opening.mm_vault,
            mm_premium_vault: opening.mm_premium_vault,
            position_user_vault: Escrow {
                amount: opening.routing.user_collateral,
                ..old(ctx).position_user_vault
            },
            position_mm_vault: Escrow {
                amount: opening.routing.maker_collateral,
                ..old(ctx).position_mm_vault
            },
            ..*old(ctx)
        }),
{
    ctx.mm_vault = opening.mm_vault;
    ctx.mm_premium_vault = opening.mm_premium_vault;
    ctx.position_user_vault.amount = opening.routing.user_collateral;
    ctx.position_mm_vault.amount = opening.routing.maker_collateral;
}

/// Routes the collateral of a covered call: the user posts `contract_size`
/// of the underlying into the user escrow, the maker posts the notional in
/// quote currency from its vault into the maker escrow, and the maker pays
/// the premium from its premium vault to the user.
pub fn execute_covered_call(
    ctx: &mut ConfirmPosition,
    strike_price: u64,
    contract_size: u64,
    premium: u64,
) -> (r: Result<OpenRouting, ErrorCode>)
    ensures
        carried_out_with(
            execute_outcome(
                *old(ctx),
                StrategyType::CoveredCall,
                strike_price,
                contract_size,
                premium,
            ),
            *old(ctx),
            *final(ctx),
            r,
        ),
        r matches Ok(routing) ==> routing.user_collateral == contract_size,
{
    let opening = match open_collateral(
        StrategyType::CoveredCall,
        strike_price,
        contract_size,
        premium,
        ctx.asset_config.decimals,
        &ctx.mm_vault,
        &ctx.mm_premium_vault,
    ) {
        Ok(opening) => opening,
        Err(e) => { return Err(e); },
    };
    record_opening(ctx, opening);
    Ok(opening.routing)
}

/// Routes the collateral of a cash-secured put: the user posts the notional
/// in quote currency into the user escrow, the maker posts `contract_size`
/// of the underlying from its vault into the maker escrow, and the maker
/// pays the premium from its premium vault to the user.
pub fn execute_cash_secured_put(
    ctx: &mut ConfirmPosition,
    strike_price: u64,
    contract_size: u64,
    premium: u64,
) -> (r: Result<OpenRouting, ErrorCode>)
    ensures
        carried_out_with(
            execute_outcome(
                *old(ctx),
                StrategyType::CashSecuredPut,
                strike_price,
                contract_size,
                premium,
            ),
            *old(ctx),
            *final(ctx),
            r,
        ),
        r matches Ok(routing) ==> routing.maker_collateral == contract_size,
{
    let opening = match open_collateral(
        StrategyType::CashSecuredPut,
        strike_price,
        contract_size,
        premium,
        ctx.asset_config.decimals,
        &ctx.mm_vault,
        &ctx.mm_premium_vault,
    ) {
        Ok(opening) => opening,
        Err(e) => { return Err(e); },
    };
    record_opening(ctx, opening);
    Ok(opening.routing)
}

/// The position counters once one more position of `contract_size` is open:
/// the protocol's position count and volume and the maker's position count;
/// `None` if one of them would leave the range of `u64`.
fn next_counters(global_state: &GlobalState, market_maker: &MarketMaker, contract_size: u64) -> (r:
    Option<(u64, u64, u64)>)
    ensures
        r == if global_state.total_positions + 1 > u64::MAX || global_state.total_volume
            + contract_size > u64::MAX || market_maker.total_positions + 1 > u64::MAX {
            None
        } else {
            Some(
                (
                    (global_state.total_positions + 1) as u64,
                    (global_state.total_volume + contract_size) as u64,
                    (market_maker.total_positions + 1) as u64,
                ),
            )
        },
{
    let total_positions: u64 = match global_state.total_positions.checked_add(1) {
        Some(total) => total,
        None => { return None; },
    };
    let total_volume: u64 = match global_state.total_volume.checked_add(contract_size) {
        Some(total) => total,
        None => { return None; },
    };
    let maker_positions: u64 = match market_maker.total_positions.checked_add(1) {
        Some(total) => total,
        None => { return None; },
    };
    Some((total_positions, total_volume, maker_positions))
}

/// What a confirmation at `now` leads to: the records with the position
/// open, or the refusal.
///
/// Strike, size and premium are those stored in the request; the position's
/// expiry is that of the quote.
pub open spec fn confirm_position_outcome(ctx: ConfirmPosition, position_id: u64, now: i64)
    -> Result<(ConfirmPosition, OpenRouting), ErrorCode> {
    let request = ctx.position_request;
    if ctx.global_state.paused {
        Err(ErrorCode::ProtocolPaused)
    } else if ctx.market_maker.owner != ctx.mm_owner {
        Err(ErrorCode::Unauthorized)
    } else if !ctx.market_maker.active {
        Err(ErrorCode::MarketMakerNotActive)
    } else if request.market_maker != ctx.market_maker_key {
        Err(ErrorCode::UnauthorizedConfirmation)
    } else if request.status != RequestStatus::Pending {
        Err(ErrorCode::RequestNotPending)
    } else if now >= request.expires_at {
        Err(ErrorCode::RequestExpired)
    } else {
        match execute_outcome(
            ctx,
            request.strategy,
            request.strike_price,
            request.contract_size,
            request.premium,
        ) {
            Err(e) => Err(e),
            Ok((opened, routing)) => {
                if ctx.global_state.total_positions + 1 > u64::MAX
                    || ctx.global_state.total_volume + request.contract_size > u64::MAX
                    || ctx.market_maker.total_positions + 1 > u64::MAX {
                    Err(ErrorCode::MathOverflow)
                } else {
                    Ok(
                        (
                            ConfirmPosition {
                                global_state: GlobalState {
                                    total_positions: (ctx.global_state.total_positions + 1) as u64,
                                    total_volume: (ctx.global_state.total_volume
                                        + request.contract_size) as u64,
                                    ..ctx.global_state
                                },
                                market_maker: MarketMaker {
                                    total_positions: (ctx.market_maker.total_positions + 1) as u64,
                                    ..ctx.market_maker
                                },
                                position_request: PositionRequest {
                                    status: RequestStatus::Accepted,
                                    ..request
                                },
                                position: Position {
                                    position_id,
                                    user: request.user,
                                    market_maker: ctx.market_maker_key,
                                    strategy: request.strategy,
                                    asset_mint: ctx.asset_config.asset_mint,
                                    quote_mint: ctx.quote.quote_mint,
                                    strike_price: request.strike_price,
                                    premium_paid: request.premium,
                                    contract_size: request.contract_size,
                                    created_at: now,
                                    expiry_timestamp: ctx.quote.expiry_timestamp,
                                    settlement_price: None,
                                    status: PositionStatus::Active,
                                    user_vault: ctx.position_user_vault.key,
                                    mm_vault_locked: ctx.position_mm_vault.key,
                                    bump: ctx.position_bump,
                                    user_vault_bump: ctx.position_user_vault_bump,
                                    mm_vault_bump: ctx.position_mm_vault_bump,
                                },
                                ..opened
                            },
                            routing,
                        ),
                    )
                }
            },
        }
    }
}

/// The maker confirms a pending request within its window: collateral from
/// both sides goes into the position's two escrows, the premium is paid, the
/// position is created active, the request is marked accepted, and the
/// position counters of the protocol and of the maker go up.
///
/// Returns the token movements to perform. If any of them cannot be made,
/// the caller must drop the whole confirmation.
pub fn handle_confirm_position(ctx: &mut ConfirmPosition, position_id: u64, now: i64) -> (r: Result<
    OpenRouting,
    ErrorCode,
>)
    ensures
        carried_out_with(
            confirm_position_outcome(*old(ctx), position_id, now),
            *old(ctx),
            *final(ctx),
            r,
        ),
        r is Ok ==> {
            &&& final(ctx).position.status == PositionStatus::Active
            &&& final(ctx).position_request.status == RequestStatus::Accepted
            &&& (old(ctx).mm_vault.wf() ==> final(ctx).mm_vault.wf())
            &&& (old(ctx).mm_premium_vault.wf() ==> final(ctx).mm_premium_vault.wf())
        },
        r matches Ok(routing) ==> final(ctx).position_user_vault.amount
            + final(ctx).position_mm_vault.amount == routing.user_collateral
            + routing.maker_collateral,
{
    if ctx.global_state.paused {
        return Err(ErrorCode::ProtocolPaused);
    }
    if ctx.market_maker.owner != ctx.mm_owner {
        return Err(ErrorCode::Unauthorized);
    }
    if !ctx.market_maker.active {
        return Err(ErrorCode::MarketMakerNotActive);
    }
    if ctx.position_request.market_maker != ctx.market_maker_key {
        return Err(ErrorCode::UnauthorizedConfirmation);
    }
    if !ctx.position_request.is_pending() {
        return Err(ErrorCode::RequestNotPending);
    }
    if ctx.position_request.is_expired(now) {
        return Err(ErrorCode::RequestExpired);
    }
    let strike_price: u64 = ctx.position_request.strike_price;
    let contract_size: u64 = ctx.position_request.contract_size;
    let premium: u64 = ctx.position_request.premium;
    let strategy = ctx.position_request.strategy;

    let mm_vault = ctx.mm_vault;
    let mm_premium_vault = ctx.mm_premium_vault;
    let position_user_vault = ctx.position_user_vault;
    let position_mm_vault = ctx.position_mm_vault;
    let routing = match strategy {
        StrategyType::CoveredCall => execute_covered_call(
            ctx,
            strike_price,
            contract_size,
            premium,
        ),
        StrategyType::CashSecuredPut => execute_cash_secured_put(
            ctx,
            strike_price,
            contract_size,
            premium,
        ),
    };
    let routing = match routing {
        Ok(routing) => routing,
        Err(e) => { return Err(e); },
    };
    let counters = next_counters(&ctx.global_state, &ctx.market_maker, contract_size);
    let (total_positions, total_volume, maker_positions): (u64, u64, u64) = match counters {
        Some(counters) => counters,
        None => {
            ctx.mm_vault = mm_vault;
            ctx.mm_premium_vault = mm_premium_vault;
            ctx.position_user_vault = position_user_vault;
            ctx.position_mm_vault = position_mm_vault;
            return Err(ErrorCode::MathOverflow);
        },
    };

    ctx.position = Position {
        position_id,
        user: ctx.position_request.user,
        market_maker: ctx.market_maker_key,
        strategy,
        asset_mint: ctx.asset_config.asset_mint,
        quote_mint: ctx.quote.quote_mint,
        strike_price,
        premium_paid: premium,
        contract_size,
        created_at: now,
        expiry_timestamp: ctx.quote.expiry_timestamp,
        settlement_price: None,
        status: PositionStatus::Active,
        user_vault: ctx.position_user_vault.key,
        mm_vault_locked: ctx.position_mm_vault.key,
        bump: ctx.position_bump,
        user_vault_bump: ctx.position_user_vault_bump,
        mm_vault_bump: ctx.position_mm_vault_bump,
    };
    ctx.position_request.status = RequestStatus::Accepted;
    ctx.global_state.total_positions = total_positions;
    ctx.global_state.total_volume = total_volume;
    ctx.market_maker.total_positions = maker_positions;
    Ok(routing)
}

/// Whether a rejection goes through, and the refusal if not. Only the owner
/// of the maker that the request names may reject, and only while the
/// request is pending.
pub open spec fn reject_request_outcome(ctx: RejectRequest) -> Result<(), ErrorCode> {
    if ctx.market_maker.owner != ctx.mm_owner {
        Err(ErrorCode::Unauthorized)
    } else if ctx.position_request.market_maker != ctx.market_maker_key {
        Err(ErrorCode::UnauthorizedConfirmation)
    } else if ctx.position_request.status != RequestStatus::Pending {
        Err(ErrorCode::RequestNotPending)
    } else {
        Ok(())
    }
}

/// The maker rejects a pending request. On `Ok` the caller closes the
/// request and refunds its storage cost to the request's user. No funds
/// move.
pub fn handle_reject_request(ctx: &RejectRequest) -> (r: Result<(), ErrorCode>)
    ensures
        r == reject_request_outcome(*ctx),
{
    if ctx.market_maker.owner != ctx.mm_owner {
        return Err(ErrorCode::Unauthorized);
    }
    if ctx.position_request.market_maker != ctx.market_maker_key {
        return Err(ErrorCode::UnauthorizedConfirmation);
    }
    if !ctx.position_request.is_pending() {
        return Err(ErrorCode::RequestNotPending);
    }
    Ok(())
}

/// Whether an expired request can be cleared at `now`, and the refusal if
/// not. Anyone may clear a pending request once its window has passed.
pub open spec fn cancel_expired_request_outcome(ctx: CancelExpiredRequest, now: i64) -> Result<
    (),
    ErrorCode,
> {
    if ctx.position_request.status != RequestStatus::Pending {
        Err(ErrorCode::RequestNotPending)
    } else if now < ctx.position_request.expires_at {
        Err(ErrorCode::RequestNotExpired)
    } else {
        Ok(())
    }
}

/// Clears a pending request whose confirmation window has passed, whoever
/// asks. On `Ok` the caller closes the request and refunds its storage cost
/// to the request's user. No funds move.
pub fn handle_cancel_expired_request(ctx: &CancelExpiredRequest, now: i64) -> (r: Result<
    (),
    ErrorCode,
>)
    ensures
        r == cancel_expired_request_outcome(*ctx, now),
{
    if !ctx.position_request.is_pending() {
        return Err(ErrorCode::RequestNotPending);
    }
    if !ctx.position_request.is_expired(now) {
        return Err(ErrorCode::RequestNotExpired);
    }
    Ok(())
}

} // verus!
