//! Settlement: once a position has reached its expiry, anyone may settle it
//! against the oracle price. The escrows are paid out, the position becomes
//! final, and the maker's locked collateral leaves its books.

use vstd::prelude::*;
use crate::errors::{carried_out_with, ErrorCode};
use crate::instructions::position_request::{confirm_position_outcome, ConfirmPosition};
use crate::oracle::{
    check_price_update, decode_price_update, decoded_price_update, settlement_price, PriceUpdate,
};
use crate::state::asset_config::AssetConfig;
use crate::state::market_maker::MarketMaker;
use crate::state::position::{Escrow, Position, PositionStatus};
use crate::state::quote::StrategyType;
use crate::state::vault::{MarketMakerVault, VaultOp};
use crate::strategy::{notional, notional_fits, notional_value, Payout};

verus! {

/// What a settlement touches: the position with its two escrows, the asset
/// it is on, the maker with the vault whose collateral backs the position,
/// and the bytes of the oracle's price update.
#[derive(Clone, Debug, PartialEq, Eq)]
pub struct SettlePosition {
    pub position: Position,
    pub asset_config: AssetConfig,
    pub market_maker: MarketMaker,
    /// The escrow that holds the user's collateral.
    pub position_user_vault: Escrow,
    /// The escrow that holds the maker's collateral.
    pub position_mm_vault: Escrow,
    /// The maker's vault from which the collateral was locked.
    pub mm_vault: MarketMakerVault,
    /// The data of the oracle's price update account.
    pub price_update: Vec<u8>,
}

/// The status that settlement gives a position.
pub open spec fn settled_status(in_the_money: bool) -> PositionStatus {
    if in_the_money {
        PositionStatus::SettledITM
    } else {
        PositionStatus::SettledOTM
    }
}

/// What the maker locked in its vault when a position of `strategy` was
/// opened: the notional for a covered call, the contract size for a
/// cash-secured put.
pub open spec fn locked_collateral(
    strategy: StrategyType,
    strike_price: u64,
    contract_size: u64,
    decimals: u8,
) -> Result<u64, ErrorCode> {
    match strategy {
        StrategyType::CoveredCall => if notional_fits(strike_price, contract_size, decimals) {
            Ok(notional_value(strike_price, contract_size, decimals) as u64)
        } else {
            Err(ErrorCode::MathOverflow)
        },
        StrategyType::CashSecuredPut => Ok(contract_size),
    }
}

/// What settling the position by the rules of `strategy` at
/// `settlement_price` leads to.
///
/// Both escrows are paid out in full and left empty; the position takes its
/// final status; the maker has one more completed position; and the maker's
/// vault unlocks what was locked when the position was opened. A vault that
/// has less than that locked has broken books: the settlement is refused
/// with `MathOverflow`.
pub open spec fn settle_as_outcome(ctx: SettlePosition, strategy: StrategyType, settlement_price: u64)
    -> Result<(SettlePosition, Payout), ErrorCode> {
    let position = ctx.position;
    let locked = locked_collateral(
        strategy,
        position.strike_price,
        position.contract_size,
        ctx.asset_config.decimals,
    );
    if ctx.market_maker.completed_positions + 1 > u64::MAX {
        Err(ErrorCode::MathOverflow)
    } else if locked is Err {
        Err(ErrorCode::MathOverflow)
    } else if locked->Ok_0 > ctx.mm_vault.locked_liquidity {
        Err(ErrorCode::MathOverflow)
    } else {
        Ok(
            (
                SettlePosition {
                    position: Position {
                        status: settled_status(
                            strategy.in_the_money(settlement_price, position.strike_price),
                        ),
                        ..position
                    },
                    market_maker: MarketMaker {
                        completed_positions: (ctx.market_maker.completed_positions + 1) as u64,
                        ..ctx.market_maker
                    },
                    position_user_vault: Escrow { amount: 0, ..ctx.position_user_vault },
                    position_mm_vault: Escrow { amount: 0, ..ctx.position_mm_vault },
                    mm_vault: ctx.mm_vault.after(VaultOp::Unlock(locked->Ok_0)),
                    ..ctx
                },
                strategy.payout(
                    settlement_price,
                    position.strike_price,
                    ctx.position_user_vault.amount,
                    ctx.position_mm_vault.amount,
                ),
            ),
        )
    }
}

/// What settling an active, expired position at `settlement_price` leads to:
/// as `settle_as_outcome` by the position's own strategy, with the
/// settlement price stored in the position.
pub open spec fn settle_at_outcome(ctx: SettlePosition, settlement_price: u64) -> Result<
    (SettlePosition, Payout),
    ErrorCode,
> {
    settle_as_outcome(
        SettlePosition {
            position: Position { settlement_price: Some(settlement_price), ..ctx.position },
            ..ctx
        },
        ctx.position.strategy,
        settlement_price,
    )
}

/// What a settlement at `now` with the decoded price update `update` leads
/// to: the records with the position settled and the payout, or the refusal.
///
/// A position that is not active is refused with `PositionNotActive`, one
/// that has not reached its expiry with `PositionNotExpired`; then the price
/// update is checked as `settlement_price` says.
pub open spec fn settle_position_outcome(ctx: SettlePosition, update: Option<PriceUpdate>, now: i64)
    -> Result<(SettlePosition, Payout), ErrorCode> {
    if ctx.position.status != PositionStatus::Active {
        Err(ErrorCode::PositionNotActive)
    } else if now < ctx.position.expiry_timestamp {
        Err(ErrorCode::PositionNotExpired)
    } else {
        match settlement_price(update, ctx.asset_config.pyth_feed_id, now) {
            Err(e) => Err(e),
            Ok(price) => settle_at_outcome(ctx, price),
        }
    }
}

/// Settles by the rules of `strategy`.
fn settle_as(ctx: &mut SettlePosition, strategy: StrategyType, settlement_price: u64) -> (r: Result<
    Payout,
    ErrorCode,
>)
    ensures
        carried_out_with(
            settle_as_outcome(*old(ctx), strategy, settlement_price),
            *old(ctx),
            *final(ctx),
            r,
        ),
        old(ctx).mm_vault.wf() ==> final(ctx).mm_vault.wf(),
{
    let payout = strategy.settle_payout(
        settlement_price,
        ctx.position.strike_price,
        ctx.position_user_vault.amount,
        ctx.position_mm_vault.amount,
    );
    let status = if strategy.is_in_the_money(settlement_price, ctx.position.strike_price) {
        PositionStatus::SettledITM
    } else {
        PositionStatus::SettledOTM
    };
    let completed: u64 = match ctx.market_maker.completed_positions.checked_add(1) {
        Some(completed) => completed,
        None => { return Err(ErrorCode::MathOverflow); },
    };
    let locked: u64 = match strategy {
        StrategyType::CoveredCall => match notional(
            ctx.position.strike_price,
            ctx.position.contract_size,
            ctx.asset_config.decimals,
        ) {
            Ok(strike_amount) => strike_amount,
            Err(e) => { return Err(e); },
        },
        StrategyType::CashSecuredPut => ctx.position.contract_size,
    };
    let mut vault = ctx.mm_vault;
    match vault.unlock(locked) {
        Ok(()) => {},
        Err(e) => { return Err(e); },
    }
    ctx.position.status = status;
    ctx.market_maker.completed_positions = completed;
    ctx.position_user_vault.amount = 0;
    ctx.position_mm_vault.amount = 0;
    ctx.mm_vault = vault;
    Ok(payout)
}

/// Settles a covered call at `settlement_price`. Above the strike it is in
/// the money: the maker receives the underlying from the user escrow and the
/// user the quote currency from the maker escrow. Otherwise each escrow
/// returns to the side that filled it.
pub fn settle_covered_call(ctx: &mut SettlePosition, settlement_price: u64) -> (r: Result<
    Payout,
    ErrorCode,
>)
    ensures
        carried_out_with(
            settle_as_outcome(*old(ctx), StrategyType::CoveredCall, settlement_price),
            *old(ctx),
            *final(ctx),
            r,
        ),
        old(ctx).mm_vault.wf() ==> final(ctx).mm_vault.wf(),
{
    settle_as(ctx, StrategyType::CoveredCall, settlement_price)
}

/// Settles a cash-secured put at `settlement_price`. Below the strike it is
/// in the money: the user receives the underlying from the maker escrow and
/// the maker the quote currency from the user escrow. Otherwise each escrow
/// returns to the side that filled it.
pub fn settle_cash_secured_put(ctx: &mut SettlePosition, settlement_price: u64) -> (r: Result<
    Payout,
    ErrorCode,
>)
    ensures
        carried_out_with(
            settle_as_outcome(*old(ctx), StrategyType::CashSecuredPut, settlement_price),
            *old(ctx),
            *final(ctx),
            r,
        ),
        old(ctx).mm_vault.wf() ==> final(ctx).mm_vault.wf(),
{
    settle_as(ctx, StrategyType::CashSecuredPut, settlement_price)
}

/// Settles a position at `now`, given what the oracle's price update decoded
/// to. Returns the payout to perform from the two escrows.
pub fn settle_with_update(ctx: &mut SettlePosition, update: Option<PriceUpdate>, now: i64) -> (r:
    Result<Payout, ErrorCode>)
    ensures
        carried_out_with(
            settle_position_outcome(*old(ctx), update, now),
            *old(ctx),
            *final(ctx),
            r,
        ),
        r is Ok ==> final(ctx).position.is_settled(),
        r matches Ok(payout) ==> payout.total() == old(ctx).position_user_vault.amount
            + old(ctx).position_mm_vault.amount,
        old(ctx).mm_vault.wf() ==> final(ctx).mm_vault.wf(),
{
    if ctx.position.status != PositionStatus::Active {
        return Err(ErrorCode::PositionNotActive);
    }
    if !(now >= ctx.position.expiry_timestamp) {
        return Err(ErrorCode::PositionNotExpired);
    }
    let price: u64 = match check_price_update(update, &ctx.asset_config.pyth_feed_id, now) {
        Ok(price) => price,
        Err(e) => { return Err(e); },
    };
    let unsettled = ctx.position.settlement_price;
    ctx.position.settlement_price = Some(price);
    let settled = match ctx.position.strategy {
        StrategyType::CoveredCall => settle_covered_call(ctx, price),
        StrategyType::CashSecuredPut => settle_cash_secured_put(ctx, price),
    };
    match settled {
        Ok(payout) => Ok(payout),
        Err(e) => {
            ctx.position.settlement_price = unsettled;
            Err(e)
        },
    }
}

/// Settles a position at `now` against the price update whose bytes the
/// records hold. Returns the payout to perform from the two escrows.
///
/// The result is that of `settle_position_outcome` on what the bytes decode
/// to.
pub fn handle_settle_position(ctx: &mut SettlePosition, now: i64) -> (r: Result<Payout, ErrorCode>)
    ensures
        carried_out_with(
            settle_position_outcome(
                *old(ctx),
                decoded_price_update(old(ctx).price_update@),
                now,
            ),
            *old(ctx),
            *final(ctx),
            r,
        ),
        r is Ok ==> final(ctx).position.is_settled(),
        old(ctx).mm_vault.wf() ==> final(ctx).mm_vault.wf(),
{
    let update = decode_price_update(ctx.price_update.as_slice());
    settle_with_update(ctx, update, now)
}

/// Settlement is final. A settlement that goes through starts from an active
/// position and leaves it in the money or out of the money; every later
/// settlement of that position, with whatever price update and at whatever
/// time, is refused with `PositionNotActive`, and a refused settlement
/// changes nothing.
pub proof fn lemma_settlement_is_final(
    ctx: SettlePosition,
    update: Option<PriceUpdate>,
    now: i64,
    later_update: Option<PriceUpdate>,
    later: i64,
)
    requires
        settle_position_outcome(ctx, update, now) is Ok,
    ensures
        ctx.position.status == PositionStatus::Active,
        ({
            let settled = settle_position_outcome(ctx, update, now)->Ok_0.0;
            &&& settled.position.status == PositionStatus::SettledITM || settled.position.status
                == PositionStatus::SettledOTM
            &&& settle_position_outcome(settled, later_update, later) == Err::<
                (SettlePosition, Payout),
                ErrorCode,
            >(ErrorCode::PositionNotActive)
        }),
{
}

/// The combined balance of a position's two escrows is conserved from
/// confirmation to settlement. After a confirmation the escrows hold
/// together what the two sides posted; a settlement of that position, with
/// the escrows as the confirmation left them, pays out to the two sides
/// exactly that sum and leaves both escrows empty.
pub proof fn lemma_escrow_balance_is_conserved(
    confirm: ConfirmPosition,
    position_id: u64,
    confirmed_at: i64,
    settle: SettlePosition,
    update: Option<PriceUpdate>,
    settled_at: i64,
)
    requires
        confirm_position_outcome(confirm, position_id, confirmed_at) is Ok,
        settle.position == confirm_position_outcome(
            confirm,
            position_id,
            confirmed_at,
        )->Ok_0.0.position,
        settle.position_user_vault == confirm_position_outcome(
            confirm,
            position_id,
            confirmed_at,
        )->Ok_0.0.position_user_vault,
        settle.position_mm_vault == confirm_position_outcome(
            confirm,
            position_id,
            confirmed_at,
        )->Ok_0.0.position_mm_vault,
        settle_position_outcome(settle, update, settled_at) is Ok,
    ensures
        ({
            let (confirmed, routing) = confirm_position_outcome(
                confirm,
                position_id,
                confirmed_at,
            )->Ok_0;
            let (settled, payout) = settle_position_outcome(settle, update, settled_at)->Ok_0;
            &&& confirmed.position_user_vault.amount + confirmed.position_mm_vault.amount
                == routing.user_collateral + routing.maker_collateral
            &&& payout.total() == routing.user_collateral + routing.maker_collateral
            &&& settled.position_user_vault.amount == 0
            &&& settled.position_mm_vault.amount == 0
        }),
{
}

} // verus!
