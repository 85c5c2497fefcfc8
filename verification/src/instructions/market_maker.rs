//! What a market maker does on its own account: registering, opening a
//! vault, depositing and withdrawing liquidity, publishing and changing
//! quotes.

use vstd::prelude::*;
use crate::constants::{INITIAL_REPUTATION_SCORE, MAX_STRIKES_PER_QUOTE};
use crate::errors::{carried_out, ErrorCode};
use crate::state::asset_config::AssetConfig;
use crate::state::market_maker::MarketMaker;
use crate::state::pubkey::Pubkey;
use crate::state::quote::{valid_size_range, Quote, StrategyType, StrikeQuote};
use crate::state::vault::{MarketMakerVault, VaultOp};

verus! {

/// What a registration touches.
#[derive(Clone, Copy, Debug, PartialEq, Eq)]
pub struct RegisterMarketMaker {
    /// The maker record to create.
    pub market_maker: MarketMaker,
    /// The wallet that registers, which signs.
    pub owner: Pubkey,
    pub market_maker_bump: u8,
}

/// What the opening of a vault touches.
#[derive(Clone, Copy, Debug, PartialEq, Eq)]
pub struct InitializeVault {
    pub market_maker: MarketMaker,
    /// Key under which `market_maker` is stored.
    pub market_maker_key: Pubkey,
    /// The vault to create.
    pub mm_vault: MarketMakerVault,
    /// Key of the token account that will hold the vault's funds.
    pub vault_token_account_key: Pubkey,
    /// The maker's owner, who signs.
    pub owner: Pubkey,
    pub mm_vault_bump: u8,
    pub vault_token_account_bump: u8,
}

/// What a deposit touches.
#[derive(Clone, Copy, Debug, PartialEq, Eq)]
pub struct DepositLiquidity {
    pub market_maker: MarketMaker,
    pub mm_vault: MarketMakerVault,
    /// The maker's owner, who signs and whose tokens are deposited.
    pub owner: Pubkey,
}

/// What a withdrawal touches.
#[derive(Clone, Copy, Debug, PartialEq, Eq)]
pub struct WithdrawLiquidity {
    pub market_maker: MarketMaker,
    pub mm_vault: MarketMakerVault,
    /// The maker's owner, who signs and receives the tokens.
    pub owner: Pubkey,
}

/// What the publication of a quote touches.
#[derive(Clone, Debug, PartialEq, Eq)]
pub struct SubmitQuote {
    pub market_maker: MarketMaker,
    /// Key under which `market_maker` is stored.
    pub market_maker_key: Pubkey,
    /// The quote to create.
    pub quote: Quote,
    /// The registration of the quoted asset.
    pub asset_config: AssetConfig,
    /// The maker's owner, who signs.
    pub owner: Pubkey,
    pub quote_bump: u8,
}

/// What a change to a quote touches.
#[derive(Clone, Debug, PartialEq, Eq)]
pub struct UpdateQuote {
    pub market_maker: MarketMaker,
    pub quote: Quote,
    /// The maker's owner, who signs.
    pub owner: Pubkey,
}

/// Registers the signing wallet as a market maker: active, with no positions
/// yet and the starting reputation.
pub fn handle_register_market_maker(ctx: &mut RegisterMarketMaker) -> (r: Result<(), ErrorCode>)
    ensures
        r is Ok,
        *final(ctx) == (RegisterMarketMaker {
            market_maker: MarketMaker {
                owner: old(ctx).owner,
                active: true,
                total_positions: 0,
                completed_positions: 0,
                reputation_score: INITIAL_REPUTATION_SCORE,
                bump: old(ctx).market_maker_bump,
            },
            ..*old(ctx)
        }),
{
    ctx.market_maker = MarketMaker {
        owner: ctx.owner,
        active: true,
        total_positions: 0,
        completed_positions: 0,
        reputation_score: INITIAL_REPUTATION_SCORE,
        bump: ctx.market_maker_bump,
    };
    Ok(())
}

/// What opening a vault for `asset_mint` leads to: an empty vault of the
/// maker, or `Unauthorized` if the signer does not own the maker.
pub open spec fn initialize_vault_outcome(ctx: InitializeVault, asset_mint: Pubkey) -> Result<
    InitializeVault,
    ErrorCode,
> {
    if ctx.market_maker.owner != ctx.owner {
        Err(ErrorCode::Unauthorized)
    } else {
        Ok(
            InitializeVault {
                mm_vault: MarketMakerVault {
                    market_maker: ctx.market_maker_key,
                    asset_mint,
                    vault_token_account: ctx.vault_token_account_key,
                    total_deposited: 0,
                    available_liquidity: 0,
                    locked_liquidity: 0,
                    bump: ctx.mm_vault_bump,
                    vault_bump: ctx.vault_token_account_bump,
                },
                ..ctx
            },
        )
    }
}

/// Opens the maker's vault for one token, with all balances at zero.
pub fn handle_initialize_vault(ctx: &mut InitializeVault, asset_mint: Pubkey) -> (r: Result<
    (),
    ErrorCode,
>)
    ensures
        carried_out(initialize_vault_outcome(*old(ctx), asset_mint), *old(ctx), *final(ctx), r),
        r is Ok ==> final(ctx).mm_vault.wf(),
{
    if ctx.market_maker.owner != ctx.owner {
        return Err(ErrorCode::Unauthorized);
    }
    ctx.mm_vault = MarketMakerVault {
        market_maker: ctx.market_maker_key,
        asset_mint,
        vault_token_account: ctx.vault_token_account_key,
        total_deposited: 0,
        available_liquidity: 0,
        locked_liquidity: 0,
        bump: ctx.mm_vault_bump,
        vault_bump: ctx.vault_token_account_bump,
    };
    Ok(())
}

/// What a deposit of `amount` leads to: `Unauthorized` if the signer does
/// not own the maker; else what the deposit does to the vault.
pub open spec fn deposit_liquidity_outcome(ctx: DepositLiquidity, amount: u64) -> Result<
    DepositLiquidity,
    ErrorCode,
> {
    if ctx.market_maker.owner != ctx.owner {
        Err(ErrorCode::Unauthorized)
    } else {
        match ctx.mm_vault.outcome(VaultOp::Deposit(amount)) {
            Ok(vault) => Ok(DepositLiquidity { mm_vault: vault, ..ctx }),
            Err(e) => Err(e),
        }
    }
}

/// The owner deposits `amount` tokens into the maker's vault: the deposited
/// and the available balance grow by `amount`. On `Ok` the caller moves
/// `amount` tokens from the owner into the vault's custody.
pub fn handle_deposit_liquidity(ctx: &mut DepositLiquidity, amount: u64) -> (r: Result<
    (),
    ErrorCode,
>)
    ensures
        carried_out(deposit_liquidity_outcome(*old(ctx), amount), *old(ctx), *final(ctx), r),
        old(ctx).mm_vault.wf() ==> final(ctx).mm_vault.wf(),
{
    if ctx.market_maker.owner != ctx.owner {
        return Err(ErrorCode::Unauthorized);
    }
    let mut vault = ctx.mm_vault;
    match vault.deposit(amount) {
        Ok(()) => {},
        Err(e) => { return Err(e); },
    }
    ctx.mm_vault = vault;
    Ok(())
}

/// What a withdrawal of `amount` leads to: `Unauthorized` if the signer does
/// not own the maker; else what the withdrawal does to the vault.
pub open spec fn withdraw_liquidity_outcome(ctx: WithdrawLiquidity, amount: u64) -> Result<
    WithdrawLiquidity,
    ErrorCode,
> {
    if ctx.market_maker.owner != ctx.owner {
        Err(ErrorCode::Unauthorized)
    } else {
        match ctx.mm_vault.outcome(VaultOp::Withdraw(amount)) {
            Ok(vault) => Ok(WithdrawLiquidity { mm_vault: vault, ..ctx }),
            Err(e) => Err(e),
        }
    }
}

/// The owner withdraws `amount` tokens from the available balance of the
/// maker's vault. Locked funds cannot be withdrawn. On `Ok` the caller moves
/// `amount` tokens from the vault's custody to the owner.
pub fn handle_withdraw_liquidity(ctx: &mut WithdrawLiquidity, amount: u64) -> (r: Result<
    (),
    ErrorCode,
>)
    ensures
        carried_out(withdraw_liquidity_outcome(*old(ctx), amount), *old(ctx), *final(ctx), r),
        old(ctx).mm_vault.wf() ==> final(ctx).mm_vault.wf(),
{
    if ctx.market_maker.owner != ctx.owner {
        return Err(ErrorCode::Unauthorized);
    }
    let mut vault = ctx.mm_vault;
    match vault.withdraw(amount) {
        Ok(()) => {},
        Err(e) => { return Err(e); },
    }
    ctx.mm_vault = vault;
    Ok(())
}

/// What publishing a quote at `now` leads to: the records with the new,
/// active quote, or the refusal.
pub open spec fn submit_quote_outcome(
    ctx: SubmitQuote,
    asset_mint: Pubkey,
    quote_mint: Pubkey,
    strategy: StrategyType,
    strikes: Vec<StrikeQuote>,
    expiry_timestamp: i64,
    min_size: u64,
    max_size: u64,
    now: i64,
) -> Result<SubmitQuote, ErrorCode> {
    if ctx.market_maker.owner != ctx.owner {
        Err(ErrorCode::Unauthorized)
    } else if !ctx.market_maker.active {
        Err(ErrorCode::MarketMakerNotActive)
    } else if !ctx.asset_config.enabled {
        Err(ErrorCode::AssetNotEnabled)
    } else if strikes@.len() > MAX_STRIKES_PER_QUOTE {
        Err(ErrorCode::TooManyStrikes)
    } else if !valid_size_range(min_size, max_size) {
        Err(ErrorCode::InvalidQuoteParameters)
    } else if expiry_timestamp <= now {
        Err(ErrorCode::QuoteExpired)
    } else {
        Ok(
            SubmitQuote {
                quote: Quote {
                    market_maker: ctx.market_maker_key,
                    asset_mint,
                    quote_mint,
                    strategy,
                    strikes,
                    expiry_timestamp,
                    min_size,
                    max_size,
                    last_updated: now,
                    active: true,
                    bump: ctx.quote_bump,
                },
                ..ctx
            },
        )
    }
}

/// The maker publishes a quote for one asset, strategy and expiry.
pub fn handle_submit_quote(
    ctx: &mut SubmitQuote,
    asset_mint: Pubkey,
    quote_mint: Pubkey,
    strategy: StrategyType,
    strikes: Vec<StrikeQuote>,
    expiry_timestamp: i64,
    min_size: u64,
    max_size: u64,
    now: i64,
) -> (r: Result<(), ErrorCode>)
    ensures
        carried_out(
            submit_quote_outcome(
                *old(ctx),
                asset_mint,
                quote_mint,
                strategy,
                strikes,
                expiry_timestamp,
                min_size,
                max_size,
                now,
            ),
            *old(ctx),
            *final(ctx),
            r,
        ),
        r is Ok ==> final(ctx).quote.wf(),
{
    if ctx.market_maker.owner != ctx.owner {
        return Err(ErrorCode::Unauthorized);
    }
    if !ctx.market_maker.active {
        return Err(ErrorCode::MarketMakerNotActive);
    }
    if !ctx.asset_config.enabled {
        return Err(ErrorCode::AssetNotEnabled);
    }
    if !(strikes.len() <= MAX_STRIKES_PER_QUOTE) {
        return Err(ErrorCode::TooManyStrikes);
    }
    if !(min_size > 0 && max_size >= min_size) {
        return Err(ErrorCode::InvalidQuoteParameters);
    }
    if !(expiry_timestamp > now) {
        return Err(ErrorCode::QuoteExpired);
    }
    ctx.quote = Quote {
        market_maker: ctx.market_maker_key,
        asset_mint,
        quote_mint,
        strategy,
        strikes,
        expiry_timestamp,
        min_size,
        max_size,
        last_updated: now,
        active: true,
        bump: ctx.quote_bump,
    };
    Ok(())
}

/// The value of a field after an update: the new value where one is given,
/// the old one otherwise.
pub open spec fn replaced<T>(old_value: T, new_value: Option<T>) -> T {
    match new_value {
        Some(value) => value,
        None => old_value,
    }
}

/// What a change to a quote at `now` leads to: the quote with each given
/// field replaced whole and the time of the change recorded, or the
/// refusal.
///
/// A new strike list may hold at most `MAX_STRIKES_PER_QUOTE` entries, a new
/// expiry must lie after `now`, and where a size bound is given the
/// resulting size range must be acceptable.
pub open spec fn update_quote_outcome(
    ctx: UpdateQuote,
    strikes: Option<Vec<StrikeQuote>>,
    expiry_timestamp: Option<i64>,
    min_size: Option<u64>,
    max_size: Option<u64>,
    active: Option<bool>,
    now: i64,
) -> Result<UpdateQuote, ErrorCode> {
    let quote = ctx.quote;
    if ctx.market_maker.owner != ctx.owner {
        Err(ErrorCode::Unauthorized)
    } else if strikes matches Some(list) && list@.len() > MAX_STRIKES_PER_QUOTE {
        Err(ErrorCode::TooManyStrikes)
    } else if expiry_timestamp matches Some(expiry) && expiry <= now {
        Err(ErrorCode::QuoteExpired)
    } else if (min_size is Some || max_size is Some) && !valid_size_range(
        replaced(quote.min_size, min_size),
        replaced(quote.max_size, max_size),
    ) {
        Err(ErrorCode::InvalidQuoteParameters)
    } else {
        Ok(
            UpdateQuote {
                quote: Quote {
                    strikes: replaced(quote.strikes, strikes),
                    expiry_timestamp: replaced(quote.expiry_timestamp, expiry_timestamp),
                    min_size: replaced(quote.min_size, min_size),
                    max_size: replaced(quote.max_size, max_size),
                    active: replaced(quote.active, active),
                    last_updated: now,
                    ..quote
                },
                ..ctx
            },
        )
    }
}

/// The maker changes its quote. Each field given replaces the stored one
/// whole; a strike list is never merged with the old one.
pub fn handle_update_quote(
    ctx: &mut UpdateQuote,
    strikes: Option<Vec<StrikeQuote>>,
    expiry_timestamp: Option<i64>,
    min_size: Option<u64>,
    max_size: Option<u64>,
    active: Option<bool>,
    now: i64,
) -> (r: Result<(), ErrorCode>)
    ensures
        carried_out(
            update_quote_outcome(
                *old(ctx),
                strikes,
                expiry_timestamp,
                min_size,
                max_size,
                active,
                now,
            ),
            *old(ctx),
            *final(ctx),
            r,
        ),
        r is Ok && old(ctx).quote.wf() ==> final(ctx).quote.wf(),
{
    if ctx.market_maker.owner != ctx.owner {
        return Err(ErrorCode::Unauthorized);
    }
    if let Some(list) = &strikes {
        if !(list.len() <= MAX_STRIKES_PER_QUOTE) {
            return Err(ErrorCode::TooManyStrikes);
        }
    }
    if let Some(expiry) = expiry_timestamp {
        if !(expiry > now) {
            return Err(ErrorCode::QuoteExpired);
        }
    }
    let new_min: u64 = match min_size {
        Some(min) => min,
        None => ctx.quote.min_size,
    };
    let new_max: u64 = match max_size {
        Some(max) => max,
        None => ctx.quote.max_size,
    };
    if (min_size.is_some() || max_size.is_some()) && !(new_min > 0 && new_max >= new_min) {
        return Err(ErrorCode::InvalidQuoteParameters);
    }
    if let Some(list) = strikes {
        ctx.quote.strikes = list;
    }
    if let Some(expiry) = expiry_timestamp {
        ctx.quote.expiry_timestamp = expiry;
    }
    ctx.quote.min_size = new_min;
    ctx.quote.max_size = new_max;
    if let Some(a) = active {
        ctx.quote.active = a;
    }
    ctx.quote.last_updated = now;
    Ok(())
}

} // verus!
