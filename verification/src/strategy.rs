//! The strategy policy: notional, collateral routing when a position opens,
//! and the exercise test with its payout routing when it settles.

use vstd::prelude::*;
use crate::errors::ErrorCode;
use crate::state::quote::StrategyType;

verus! {

/// Ten to the power `e`.
pub open spec fn pow10(e: nat) -> nat
    decreases e,
{
    if e == 0 {
        1
    } else {
        10 * pow10((e - 1) as nat)
    }
}

/// Powers of ten grow with the exponent.
pub proof fn lemma_pow10_grows(a: nat, b: nat)
    requires
        a <= b,
    ensures
        0 < pow10(a) <= pow10(b),
    decreases b,
{
    if b == 0 {
    } else if a == b {
        lemma_pow10_grows(0, (b - 1) as nat);
    } else {
        lemma_pow10_grows(a, (b - 1) as nat);
    }
}

/// Ten to the power `decimals`, or `None` where that leaves the range of
/// `u64`, which it does from 20 decimals on.
pub fn checked_pow10(decimals: u8) -> (power: Option<u64>)
    ensures
        power == if pow10(decimals as nat) <= u64::MAX {
            Some(pow10(decimals as nat) as u64)
        } else {
            None
        },
        power is Some <==> decimals <= 19,
{
    proof {
        reveal_with_fuel(pow10, 21);
        assert(pow10(19) == 10_000_000_000_000_000_000);
        assert(pow10(20) == 100_000_000_000_000_000_000);
    }
    if decimals > 19 {
        proof {
            lemma_pow10_grows(20, decimals as nat);
        }
        return None;
    }
    let mut power: u64 = 1;
    let mut i: u8 = 0;
    while i < decimals
        invariant
            i <= decimals <= 19,
            power == pow10(i as nat),
            pow10(19) == 10_000_000_000_000_000_000,
        decreases decimals - i,
    {
        proof {
            lemma_pow10_grows((i + 1) as nat, 19);
        }
        power = power * 10;
        i += 1;
    }
    proof {
        lemma_pow10_grows(decimals as nat, 19);
    }
    Some(power)
}

/// Whether the notional of a trade can be computed in `u64`: the product of
/// strike price and contract size fits, and so does ten to the power
/// `decimals`.
pub open spec fn notional_fits(strike_price: u64, contract_size: u64, decimals: u8) -> bool {
    strike_price * contract_size <= u64::MAX && pow10(decimals as nat) <= u64::MAX
}

/// The notional of a trade: the strike price times the contract size,
/// divided by ten to the power `decimals` and rounded down.
pub open spec fn notional_value(strike_price: u64, contract_size: u64, decimals: u8) -> int {
    (strike_price * contract_size) / (pow10(decimals as nat) as int)
}

/// The notional of a trade, in quote currency: `strike_price` times
/// `contract_size`, scaled down by the asset's decimals, rounded down.
/// Refused with `MathOverflow` where the product or the scale leaves the
/// range of `u64`.
pub fn notional(strike_price: u64, contract_size: u64, decimals: u8) -> (r: Result<u64, ErrorCode>)
    ensures
        notional_fits(strike_price, contract_size, decimals) ==> r == Ok::<u64, ErrorCode>(
            notional_value(strike_price, contract_size, decimals) as u64,
        ),
        !notional_fits(strike_price, contract_size, decimals) ==> r == Err::<u64, ErrorCode>(
            ErrorCode::MathOverflow,
        ),
        r matches Ok(value) ==> value == notional_value(strike_price, contract_size, decimals),
{
    let product: u64 = match strike_price.checked_mul(contract_size) {
        Some(product) => product,
        None => { return Err(ErrorCode::MathOverflow); },
    };
    let scale: u64 = match checked_pow10(decimals) {
        Some(scale) => scale,
        None => { return Err(ErrorCode::MathOverflow); },
    };
    proof {
        lemma_pow10_grows(0, decimals as nat);
        assert(0 <= (product as int) / (scale as int) <= product) by (nonlinear_arith)
            requires
                0 <= product,
                0 < scale,
        ;
    }
    Ok(product / scale)
}

/// The premium of a trade: the premium per contract times the contract size.
/// Refused with `MathOverflow` where the product leaves the range of `u64`.
pub fn premium_due(premium_per_contract: u64, contract_size: u64) -> (r: Result<u64, ErrorCode>)
    ensures
        premium_per_contract * contract_size <= u64::MAX ==> r == Ok::<u64, ErrorCode>(
            (premium_per_contract * contract_size) as u64,
        ),
        premium_per_contract * contract_size > u64::MAX ==> r == Err::<u64, ErrorCode>(
            ErrorCode::MathOverflow,
        ),
{
    match premium_per_contract.checked_mul(contract_size) {
        Some(premium) => Ok(premium),
        None => Err(ErrorCode::MathOverflow),
    }
}

/// One of the two sides of a position.
#[derive(Clone, Copy, Debug, PartialEq, Eq, Structural)]
pub enum Party {
    User,
    MarketMaker,
}

/// The token movements that open a position. All three happen, or none.
#[derive(Clone, Copy, Debug, PartialEq, Eq, Structural)]
pub struct OpenRouting {
    /// What the user pays into the user escrow.
    pub user_collateral: u64,
    /// What leaves the maker's vault for the maker escrow.
    pub maker_collateral: u64,
    /// What leaves the maker's premium vault for the user.
    pub premium: u64,
}

/// The token movements that settle a position: each escrow is emptied to one
/// of the two sides.
#[derive(Clone, Copy, Debug, PartialEq, Eq, Structural)]
pub struct Payout {
    /// Who receives what the user escrow holds.
    pub user_escrow_to: Party,
    pub user_escrow_amount: u64,
    /// Who receives what the maker escrow holds.
    pub maker_escrow_to: Party,
    pub maker_escrow_amount: u64,
}

impl Payout {
    /// All that the payout hands out, both escrows together.
    pub open spec fn total(self) -> int {
        self.user_escrow_amount + self.maker_escrow_amount
    }
}

impl StrategyType {
    /// What the user posts when a position opens: the underlying for a
    /// covered call, the notional in quote currency for a cash-secured put.
    pub open spec fn user_collateral(self, contract_size: u64, notional: u64) -> u64 {
        match self {
            StrategyType::CoveredCall => contract_size,
            StrategyType::CashSecuredPut => notional,
        }
    }

    /// What the maker posts from its vault when a position opens: the
    /// notional in quote currency for a covered call, the underlying for a
    /// cash-secured put.
    pub open spec fn maker_collateral(self, contract_size: u64, notional: u64) -> u64 {
        match self {
            StrategyType::CoveredCall => notional,
            StrategyType::CashSecuredPut => contract_size,
        }
    }

    /// The exercise test. A covered call is in the money when the settlement
    /// price is above the strike, a cash-secured put when it is below. At
    /// equal prices neither is.
    pub open spec fn in_the_money(self, settlement_price: u64, strike_price: u64) -> bool {
        match self {
            StrategyType::CoveredCall => settlement_price > strike_price,
            StrategyType::CashSecuredPut => settlement_price < strike_price,
        }
    }

    /// Who gets what at settlement. In the money the escrows change sides:
    /// the maker receives the user escrow and the user the maker escrow. Out
    /// of the money each escrow returns to the side that filled it. Either
    /// way both escrows are paid out in full.
    pub open spec fn payout(
        self,
        settlement_price: u64,
        strike_price: u64,
        user_escrow: u64,
        maker_escrow: u64,
    ) -> Payout {
        if self.in_the_money(settlement_price, strike_price) {
            Payout {
                user_escrow_to: Party::MarketMaker,
                user_escrow_amount: user_escrow,
                maker_escrow_to: Party::User,
                maker_escrow_amount: maker_escrow,
            }
        } else {
            Payout {
                user_escrow_to: Party::User,
                user_escrow_amount: user_escrow,
                maker_escrow_to: Party::MarketMaker,
                maker_escrow_amount: maker_escrow,
            }
        }
    }

    /// The collateral and premium movements that open a position of
    /// `contract_size` with the given notional.
    pub fn open_routing(self, contract_size: u64, notional: u64, premium: u64) -> (routing:
        OpenRouting)
        ensures
            routing == (OpenRouting {
                user_collateral: self.user_collateral(contract_size, notional),
                maker_collateral: self.maker_collateral(contract_size, notional),
                premium,
            }),
    {
        match self {
            StrategyType::CoveredCall => OpenRouting {
                user_collateral: contract_size,
                maker_collateral: notional,
                premium,
            },
            StrategyType::CashSecuredPut => OpenRouting {
                user_collateral: notional,
                maker_collateral: contract_size,
                premium,
            },
        }
    }

    /// Whether the option is exercised at `settlement_price`.
    pub fn is_in_the_money(self, settlement_price: u64, strike_price: u64) -> (itm: bool)
        ensures
            itm == self.in_the_money(settlement_price, strike_price),
    {
        match self {
            StrategyType::CoveredCall => settlement_price > strike_price,
            StrategyType::CashSecuredPut => settlement_price < strike_price,
        }
    }

    /// The payout of a position settled at `settlement_price`, from what the
    /// two escrows hold.
    pub fn settle_payout(
        self,
        settlement_price: u64,
        strike_price: u64,
        user_escrow: u64,
        maker_escrow: u64,
    ) -> (payout: Payout)
        ensures
            payout == self.payout(settlement_price, strike_price, user_escrow, maker_escrow),
    {
        if self.is_in_the_money(settlement_price, strike_price) {
            Payout {
                user_escrow_to: Party::MarketMaker,
                user_escrow_amount: user_escrow,
                maker_escrow_to: Party::User,
                maker_escrow_amount: maker_escrow,
            }
        } else {
            Payout {
                user_escrow_to: Party::User,
                user_escrow_amount: user_escrow,
                maker_escrow_to: Party::MarketMaker,
                maker_escrow_amount: maker_escrow,
            }
        }
    }
}

/// At a settlement price equal to the strike price, no strategy is in the
/// money.
pub proof fn lemma_equal_price_is_out_of_the_money(strategy: StrategyType, price: u64)
    ensures
        !strategy.in_the_money(price, price),
{
}

/// A payout hands out exactly what the two escrows hold, whatever the
/// strategy and the prices.
pub proof fn lemma_payout_drains_escrows(
    strategy: StrategyType,
    settlement_price: u64,
    strike_price: u64,
    user_escrow: u64,
    maker_escrow: u64,
)
    ensures
        strategy.payout(settlement_price, strike_price, user_escrow, maker_escrow).total()
            == user_escrow + maker_escrow,
{
}

} // verus!
