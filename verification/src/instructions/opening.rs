//! What opening a position does to the maker's vaults, shared by the
//! confirmation of a request and the direct creation of a position.

use vstd::prelude::*;
use crate::errors::ErrorCode;
use crate::state::quote::StrategyType;
use crate::state::vault::{MarketMakerVault, VaultOp};
use crate::strategy::{notional, notional_fits, notional_value, OpenRouting};

verus! {

/// The maker's two vaults once a position is open, and the token movements
/// that open it.
#[derive(Clone, Copy, Debug, PartialEq, Eq)]
pub struct Opening {
    /// The collateral vault, with the maker's collateral locked.
    pub mm_vault: MarketMakerVault,
    /// The premium vault, with the premium paid out.
    pub mm_premium_vault: MarketMakerVault,
    pub routing: OpenRouting,
}

/// What opening a position of `contract_size` at `strike_price` does.
///
/// The notional is computed first; the maker's vault must have the maker's
/// collateral available and the premium vault the premium, else the opening
/// is refused with `InsufficientLiquidity`. The collateral is then locked in
/// the vault and the premium withdrawn from the premium vault.
pub open spec fn opening_outcome(
    strategy: StrategyType,
    strike_price: u64,
    contract_size: u64,
    premium: u64,
    decimals: u8,
    mm_vault: MarketMakerVault,
    mm_premium_vault: MarketMakerVault,
) -> Result<Opening, ErrorCode> {
    let strike_amount = notional_value(strike_price, contract_size, decimals) as u64;
    let maker_collateral = strategy.maker_collateral(contract_size, strike_amount);
    if !notional_fits(strike_price, contract_size, decimals) {
        Err(ErrorCode::MathOverflow)
    } else if mm_vault.available_liquidity < maker_collateral {
        Err(ErrorCode::InsufficientLiquidity)
    } else if mm_premium_vault.available_liquidity < premium {
        Err(ErrorCode::InsufficientLiquidity)
    } else if mm_vault.locked_liquidity + maker_collateral > u64::MAX {
        Err(ErrorCode::MathOverflow)
    } else {
        Ok(
            Opening {
                mm_vault: mm_vault.after(VaultOp::Lock(maker_collateral)),
                mm_premium_vault: mm_premium_vault.after(VaultOp::Withdraw(premium)),
                routing: OpenRouting {
                    user_collateral: strategy.user_collateral(contract_size, strike_amount),
                    maker_collateral,
                    premium,
                },
            },
        )
    }
}

/// Locks the maker's collateral and pays the premium out of the premium
/// vault, for a position of the given strategy. The vaults handed in are not
/// changed; the result holds them as they are once the position is open.
pub fn open_collateral(
    strategy: StrategyType,
    strike_price: u64,
    contract_size: u64,
    premium: u64,
    decimals: u8,
    mm_vault: &MarketMakerVault,
    mm_premium_vault: &MarketMakerVault,
) -> (r: Result<Opening, ErrorCode>)
    ensures
        r == opening_outcome(
            strategy,
            strike_price,
            contract_size,
            premium,
            decimals,
            *mm_vault,
            *mm_premium_vault,
        ),
        r matches Ok(opening) ==> {
            &&& (mm_vault.wf() ==> opening.mm_vault.wf())
            &&& (mm_premium_vault.wf() ==> opening.mm_premium_vault.wf())
        },
{
    let strike_amount: u64 = match notional(strike_price, contract_size, decimals) {
        Ok(strike_amount) => strike_amount,
        Err(e) => { return Err(e); },
    };
    let routing = strategy.open_routing(contract_size, strike_amount, premium);
    if !(mm_vault.available_liquidity >= routing.maker_collateral) {
        return Err(ErrorCode::InsufficientLiquidity);
    }
    if !(mm_premium_vault.available_liquidity >= premium) {
        return Err(ErrorCode::InsufficientLiquidity);
    }
    let mut vault = *mm_vault;
    match vault.lock(routing.maker_collateral) {
        Ok(()) => {},
        Err(e) => { return Err(e); },
    }
    let mut premium_vault = *mm_premium_vault;
    match premium_vault.withdraw(premium) {
        Ok(()) => {},
        Err(e) => { return Err(e); },
    }
    Ok(Opening { mm_vault: vault, mm_premium_vault: premium_vault, routing })
}

} // verus!
