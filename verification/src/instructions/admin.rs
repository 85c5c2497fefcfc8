//! What the protocol's authority does: setting up and changing the global
//! configuration, registering assets and changing their parameters.

use vstd::prelude::*;
use crate::errors::{carried_out, ErrorCode};
use crate::instructions::market_maker::replaced;
use crate::state::asset_config::AssetConfig;
use crate::state::global_state::GlobalState;
use crate::state::pubkey::Pubkey;

verus! {

/// What the set-up of the global configuration touches.
#[derive(Clone, Copy, Debug, PartialEq, Eq)]
pub struct InitializeGlobalState {
    /// The configuration to create.
    pub global_state: GlobalState,
    /// The wallet that becomes the authority, which signs.
    pub authority: Pubkey,
    /// The wallet that receives protocol fees.
    pub treasury: Pubkey,
    pub global_state_bump: u8,
}

/// What a change to the global configuration touches.
#[derive(Clone, Copy, Debug, PartialEq, Eq)]
pub struct UpdateGlobalState {
    pub global_state: GlobalState,
    /// The signer, who must be the authority.
    pub authority: Pubkey,
}

/// What the registration of an asset touches.
#[derive(Clone, Copy, Debug, PartialEq, Eq)]
pub struct AddAsset {
    pub global_state: GlobalState,
    /// The registration to create.
    pub asset_config: AssetConfig,
    /// The signer, who must be the authority.
    pub authority: Pubkey,
    pub asset_config_bump: u8,
}

/// What a change to an asset's registration touches.
#[derive(Clone, Copy, Debug, PartialEq, Eq)]
pub struct UpdateAsset {
    pub global_state: GlobalState,
    pub asset_config: AssetConfig,
    /// The signer, who must be the authority.
    pub authority: Pubkey,
}

/// Sets up the global configuration: the signer becomes the authority, the
/// protocol is not paused, and the counters start at zero.
pub fn handle_initialize_global_state(ctx: &mut InitializeGlobalState, protocol_fee_bps: u16) -> (r:
    Result<(), ErrorCode>)
    ensures
        r is Ok,
        *final(ctx) == (InitializeGlobalState {
            global_state: GlobalState {
                authority: old(ctx).authority,
                treasury: old(ctx).treasury,
                protocol_fee_bps,
                paused: false,
                total_volume: 0,
                total_positions: 0,
                bump: old(ctx).global_state_bump,
            },
            ..*old(ctx)
        }),
{
    ctx.global_state = GlobalState {
        authority: ctx.authority,
        treasury: ctx.treasury,
        protocol_fee_bps,
        paused: false,
        total_volume: 0,
        total_positions: 0,
        bump: ctx.global_state_bump,
    };
    Ok(())
}

/// What a change to the global configuration leads to: each given field
/// replaced, or `Unauthorized` if the signer is not the authority.
pub open spec fn update_global_state_outcome(
    ctx: UpdateGlobalState,
    new_authority: Option<Pubkey>,
    new_treasury: Option<Pubkey>,
    new_fee_bps: Option<u16>,
    paused: Option<bool>,
) -> Result<UpdateGlobalState, ErrorCode> {
    let state = ctx.global_state;
    if state.authority != ctx.authority {
        Err(ErrorCode::Unauthorized)
    } else {
        Ok(
            UpdateGlobalState {
                global_state: GlobalState {
                    authority: replaced(state.authority, new_authority),
                    treasury: replaced(state.treasury, new_treasury),
                    protocol_fee_bps: replaced(state.protocol_fee_bps, new_fee_bps),
                    paused: replaced(state.paused, paused),
                    ..state
                },
                ..ctx
            },
        )
    }
}

/// The authority changes the global configuration: authority, treasury, fee
/// and pause flag, each where given.
pub fn handle_update_global_state(
    ctx: &mut UpdateGlobalState,
    new_authority: Option<Pubkey>,
    new_treasury: Option<Pubkey>,
    new_fee_bps: Option<u16>,
    paused: Option<bool>,
) -> (r: Result<(), ErrorCode>)
    ensures
        carried_out(
            update_global_state_outcome(
                *old(ctx),
                new_authority,
                new_treasury,
                new_fee_bps,
                paused,
            ),
            *old(ctx),
            *final(ctx),
            r,
        ),
{
    if ctx.global_state.authority != ctx.authority {
        return Err(ErrorCode::Unauthorized);
    }
    if let Some(auth) = new_authority {
        ctx.global_state.authority = auth;
    }
    if let Some(treasury) = new_treasury {
        ctx.global_state.treasury = treasury;
    }
    if let Some(fee) = new_fee_bps {
        ctx.global_state.protocol_fee_bps = fee;
    }
    if let Some(pause) = paused {
        ctx.global_state.paused = pause;
    }
    Ok(())
}

/// What the registration of an asset leads to: the enabled registration, or
/// the refusal. The minimum strike percentage must lie below the maximum,
/// and the minimum time to expiry below the maximum.
pub open spec fn add_asset_outcome(
    ctx: AddAsset,
    asset_mint: Pubkey,
    quote_mint: Pubkey,
    pyth_feed_id: [u8; 32],
    min_strike_percentage: u16,
    max_strike_percentage: u16,
    min_expiry_seconds: i64,
    max_expiry_seconds: i64,
    decimals: u8,
) -> Result<AddAsset, ErrorCode> {
    if ctx.global_state.authority != ctx.authority {
        Err(ErrorCode::Unauthorized)
    } else if min_strike_percentage >= max_strike_percentage {
        Err(ErrorCode::InvalidStrikeRange)
    } else if min_expiry_seconds >= max_expiry_seconds {
        Err(ErrorCode::InvalidExpiryRange)
    } else {
        Ok(
            AddAsset {
                asset_config: AssetConfig {
                    asset_mint,
                    quote_mint,
                    pyth_feed_id,
                    enabled: true,
                    min_strike_percentage,
                    max_strike_percentage,
                    min_expiry_seconds,
                    max_expiry_seconds,
                    decimals,
                    bump: ctx.asset_config_bump,
                },
                ..ctx
            },
        )
    }
}

/// The authority registers an asset for trading.
pub fn handle_add_asset(
    ctx: &mut AddAsset,
    asset_mint: Pubkey,
    quote_mint: Pubkey,
    pyth_feed_id: [u8; 32],
    min_strike_percentage: u16,
    max_strike_percentage: u16,
    min_expiry_seconds: i64,
    max_expiry_seconds: i64,
    decimals: u8,
) -> (r: Result<(), ErrorCode>)
    ensures
        carried_out(
            add_asset_outcome(
                *old(ctx),
                asset_mint,
                quote_mint,
                pyth_feed_id,
                min_strike_percentage,
                max_strike_percentage,
                min_expiry_seconds,
                max_expiry_seconds,
                decimals,
            ),
            *old(ctx),
            *final(ctx),
            r,
        ),
{
    if ctx.global_state.authority != ctx.authority {
        return Err(ErrorCode::Unauthorized);
    }
    if !(min_strike_percentage < max_strike_percentage) {
        return Err(ErrorCode::InvalidStrikeRange);
    }
    if !(min_expiry_seconds < max_expiry_seconds) {
        return Err(ErrorCode::InvalidExpiryRange);
    }
    ctx.asset_config = AssetConfig {
        asset_mint,
        quote_mint,
        pyth_feed_id,
        enabled: true,
        min_strike_percentage,
        max_strike_percentage,
        min_expiry_seconds,
        max_expiry_seconds,
        decimals,
        bump: ctx.asset_config_bump,
    };
    Ok(())
}

/// What a change to an asset's registration leads to: each given field
/// replaced, or `Unauthorized` if the signer is not the authority.
pub open spec fn update_asset_outcome(
    ctx: UpdateAsset,
    enabled: Option<bool>,
    min_strike_percentage: Option<u16>,
    max_strike_percentage: Option<u16>,
    min_expiry_seconds: Option<i64>,
    max_expiry_seconds: Option<i64>,
) -> Result<UpdateAsset, ErrorCode> {
    let asset = ctx.asset_config;
    if ctx.global_state.authority != ctx.authority {
        Err(ErrorCode::Unauthorized)
    } else {
        Ok(
            UpdateAsset {
                asset_config: AssetConfig {
                    enabled: replaced(asset.enabled, enabled),
                    min_strike_percentage: replaced(
                        asset.min_strike_percentage,
                        min_strike_percentage,
                    ),
                    max_strike_percentage: replaced(
                        asset.max_strike_percentage,
                        max_strike_percentage,
                    ),
                    min_expiry_seconds: replaced(asset.min_expiry_seconds, min_expiry_seconds),
                    max_expiry_seconds: replaced(asset.max_expiry_seconds, max_expiry_seconds),
                    ..asset
                },
                ..ctx
            },
        )
    }
}

/// The authority changes an asset's registration: the enabled flag and the
/// advisory strike and expiry bounds, each where given.
pub fn handle_update_asset(
    ctx: &mut UpdateAsset,
    enabled: Option<bool>,
    min_strike_percentage: Option<u16>,
    max_strike_percentage: Option<u16>,
    min_expiry_seconds: Option<i64>,
    max_expiry_seconds: Option<i64>,
) -> (r: Result<(), ErrorCode>)
    ensures
        carried_out(
            update_asset_outcome(
                *old(ctx),
                enabled,
                min_strike_percentage,
                max_strike_percentage,
                min_expiry_seconds,
                max_expiry_seconds,
            ),
            *old(ctx),
            *final(ctx),
            r,
        ),
{
    if ctx.global_state.authority != ctx.authority {
        return Err(ErrorCode::Unauthorized);
    }
    if let Some(e) = enabled {
        ctx.asset_config.enabled = e;
    }
    if let Some(min) = min_strike_percentage {
        ctx.asset_config.min_strike_percentage = min;
    }
    if let Some(max) = max_strike_percentage {
        ctx.asset_config.max_strike_percentage = max;
    }
    if let Some(min) = min_expiry_seconds {
        ctx.asset_config.min_expiry_seconds = min;
    }
    if let Some(max) = max_expiry_seconds {
        ctx.asset_config.max_expiry_seconds = max;
    }
    Ok(())
}

} // verus!
