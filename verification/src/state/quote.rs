//! Quotes: a market maker's published offer for one asset, strategy and
//! expiry.

use vstd::prelude::*;
use crate::constants::MAX_STRIKES_PER_QUOTE;
use crate::state::pubkey::Pubkey;

verus! {

/// The payoff rule of an option. The set is closed.
#[derive(Clone, Copy, Debug, PartialEq, Eq, Structural)]
pub enum StrategyType {
    /// The user posts the underlying; the maker posts the strike value in
    /// quote currency and may buy the underlying at the strike.
    CoveredCall,
    /// The user posts the strike value in quote currency; the maker posts the
    /// underlying, which the user may buy at the strike.
    CashSecuredPut,
}

/// One strike on offer.
#[derive(Clone, Copy, Debug, PartialEq, Eq)]
pub struct StrikeQuote {
    /// Strike price, in units of the quote currency.
    pub strike_price: u64,
    /// Premium the maker pays per unit of contract size.
    pub premium_per_contract: u64,
    /// Largest contract size offered at this strike. Advisory: opening a
    /// position does not reduce it.
    pub available_contracts: u64,
}

/// A market maker's offer.
#[derive(Clone, Debug, PartialEq, Eq)]
pub struct Quote {
    /// Key of the market maker that published the quote.
    pub market_maker: Pubkey,
    /// Mint of the underlying asset.
    pub asset_mint: Pubkey,
    /// Mint of the quote currency.
    pub quote_mint: Pubkey,
    pub strategy: StrategyType,
    /// The strikes on offer, at most `MAX_STRIKES_PER_QUOTE`.
    pub strikes: Vec<StrikeQuote>,
    /// Time from which the quote is no longer valid.
    pub expiry_timestamp: i64,
    /// Smallest contract size accepted.
    pub min_size: u64,
    /// Largest contract size accepted.
    pub max_size: u64,
    /// Time of the last change.
    pub last_updated: i64,
    pub active: bool,
    pub bump: u8,
}

/// Whether a size range is acceptable for a quote: a positive minimum and a
/// maximum that is not below it.
pub open spec fn valid_size_range(min_size: u64, max_size: u64) -> bool {
    min_size > 0 && max_size >= min_size
}

/// Whether some entry of `strikes` has the given strike price.
pub open spec fn has_strike(strikes: Seq<StrikeQuote>, strike_price: u64) -> bool {
    exists|i: int| 0 <= i < strikes.len() && (#[trigger] strikes[i]).strike_price == strike_price
}

/// Whether `i` is the position of the first entry of `strikes` with the given
/// strike price.
pub open spec fn is_first_strike(strikes: Seq<StrikeQuote>, strike_price: u64, i: int) -> bool {
    &&& 0 <= i < strikes.len()
    &&& strikes[i].strike_price == strike_price
    &&& forall|j: int| 0 <= j < i ==> (#[trigger] strikes[j]).strike_price != strike_price
}

/// The first entry of `strikes` with the given strike price. Meaningful only
/// where `has_strike` holds.
pub open spec fn first_strike(strikes: Seq<StrikeQuote>, strike_price: u64) -> StrikeQuote {
    strikes[choose|i: int| is_first_strike(strikes, strike_price, i)]
}

/// The first entry with a given price is the one at the first position that
/// has that price.
pub proof fn lemma_first_strike_at(strikes: Seq<StrikeQuote>, strike_price: u64, i: int)
    requires
        is_first_strike(strikes, strike_price, i),
    ensures
        has_strike(strikes, strike_price),
        first_strike(strikes, strike_price) == strikes[i],
{
    let k = choose|k: int| is_first_strike(strikes, strike_price, k);
    assert(is_first_strike(strikes, strike_price, k));
    if k < i {
        assert(strikes[k].strike_price != strike_price);
    }
    if i < k {
        assert(strikes[i].strike_price != strike_price);
    }
}

impl Quote {
    /// The invariant of a quote: at most `MAX_STRIKES_PER_QUOTE` strikes and
    /// an acceptable size range.
    pub open spec fn wf(&self) -> bool {
        &&& self.strikes@.len() <= MAX_STRIKES_PER_QUOTE
        &&& valid_size_range(self.min_size, self.max_size)
    }

    /// The first strike entry with the given strike price, if there is one.
    pub fn find_strike(&self, strike_price: u64) -> (found: Option<StrikeQuote>)
        ensures
            found is Some <==> has_strike(self.strikes@, strike_price),
            found matches Some(entry) ==> entry == first_strike(self.strikes@, strike_price),
    {
        let mut i: usize = 0;
        while i < self.strikes.len()
            invariant
                i <= self.strikes@.len(),
                forall|j: int| 0 <= j < i ==> (#[trigger] self.strikes@[j]).strike_price != strike_price,
            decreases self.strikes@.len() - i,
        {
            if self.strikes[i].strike_price == strike_price {
                proof {
                    lemma_first_strike_at(self.strikes@, strike_price, i as int);
                }
                return Some(self.strikes[i]);
            }
            i += 1;
        }
        None
    }
}

} // verus!
