use solation::errors::ErrorCode;
use solation::instructions::admin::{
    handle_add_asset, handle_initialize_global_state, handle_update_asset,
    handle_update_global_state, AddAsset, InitializeGlobalState, UpdateAsset, UpdateGlobalState,
};
use solation::state::{AssetConfig, GlobalState, Pubkey};

fn akey(n: u8) -> Pubkey {
    Pubkey::new([n; 32])
}

fn config(authority: Pubkey) -> GlobalState {
    GlobalState {
        authority,
        treasury: akey(91),
        protocol_fee_bps: 25,
        paused: false,
        total_volume: 40,
        total_positions: 7,
        bump: 255,
    }
}

fn registered_asset() -> AssetConfig {
    AssetConfig {
        asset_mint: akey(10),
        quote_mint: akey(11),
        pyth_feed_id: [12; 32],
        enabled: true,
        min_strike_percentage: 80,
        max_strike_percentage: 120,
        min_expiry_seconds: 86_400,
        max_expiry_seconds: 7_776_000,
        decimals: 9,
        bump: 253,
    }
}

fn blank_asset() -> AssetConfig {
    AssetConfig {
        asset_mint: akey(0),
        quote_mint: akey(0),
        pyth_feed_id: [0; 32],
        enabled: false,
        min_strike_percentage: 0,
        max_strike_percentage: 0,
        min_expiry_seconds: 0,
        max_expiry_seconds: 0,
        decimals: 0,
        bump: 0,
    }
}

fn add_ctx(signer: Pubkey) -> AddAsset {
    AddAsset {
        global_state: config(akey(90)),
        asset_config: blank_asset(),
        authority: signer,
        asset_config_bump: 253,
    }
}

fn add(ctx: &mut AddAsset, min_pct: u16, max_pct: u16, min_exp: i64, max_exp: i64)
    -> Result<(), ErrorCode> {
    handle_add_asset(ctx, akey(10), akey(11), [12; 32], min_pct, max_pct, min_exp, max_exp, 9)
}

#[test]
fn initialize_global_state_sets_the_defaults() {
    let mut ctx = InitializeGlobalState {
        global_state: config(akey(0)),
        authority: akey(90),
        treasury: akey(91),
        global_state_bump: 255,
    };
    assert_eq!(handle_initialize_global_state(&mut ctx, 25), Ok(()));
    assert_eq!(
        ctx.global_state,
        GlobalState {
            authority: akey(90),
            treasury: akey(91),
            protocol_fee_bps: 25,
            paused: false,
            total_volume: 0,
            total_positions: 0,
            bump: 255,
        }
    );
}

#[test]
fn update_global_state_replaces_given_fields() {
    let mut ctx = UpdateGlobalState { global_state: config(akey(90)), authority: akey(90) };
    assert_eq!(handle_update_global_state(&mut ctx, None, None, None, Some(true)), Ok(()));
    let mut expected = config(akey(90));
    expected.paused = true;
    assert_eq!(ctx.global_state, expected);

    assert_eq!(
        handle_update_global_state(&mut ctx, Some(akey(95)), Some(akey(96)), Some(30), Some(false)),
        Ok(())
    );
    let mut expected = config(akey(95));
    expected.treasury = akey(96);
    expected.protocol_fee_bps = 30;
    assert_eq!(ctx.global_state, expected);
}

#[test]
fn update_global_state_with_nothing_given_changes_nothing() {
    let mut ctx = UpdateGlobalState { global_state: config(akey(90)), authority: akey(90) };
    assert_eq!(handle_update_global_state(&mut ctx, None, None, None, None), Ok(()));
    assert_eq!(ctx.global_state, config(akey(90)));
}

#[test]
fn update_global_state_needs_the_authority() {
    let mut ctx = UpdateGlobalState { global_state: config(akey(90)), authority: akey(66) };
    assert_eq!(
        handle_update_global_state(&mut ctx, Some(akey(66)), None, None, Some(true)),
        Err(ErrorCode::Unauthorized)
    );
    assert_eq!(ctx.global_state, config(akey(90)));
}

#[test]
fn a_handed_over_authority_takes_effect() {
    let mut ctx = UpdateGlobalState { global_state: config(akey(90)), authority: akey(90) };
    assert_eq!(handle_update_global_state(&mut ctx, Some(akey(95)), None, None, None), Ok(()));
    assert_eq!(
        handle_update_global_state(&mut ctx, None, None, None, Some(true)),
        Err(ErrorCode::Unauthorized)
    );
    ctx.authority = akey(95);
    assert_eq!(handle_update_global_state(&mut ctx, None, None, None, Some(true)), Ok(()));
}

#[test]
fn add_asset_registers_it_enabled() {
    let mut ctx = add_ctx(akey(90));
    assert_eq!(add(&mut ctx, 80, 120, 86_400, 7_776_000), Ok(()));
    assert_eq!(ctx.asset_config, registered_asset());
    assert_eq!(ctx.global_state, config(akey(90)));
}

#[test]
fn add_asset_rejects_an_empty_strike_range() {
    let mut ctx = add_ctx(akey(90));
    let before = ctx;
    assert_eq!(add(&mut ctx, 120, 120, 1, 2), Err(ErrorCode::InvalidStrikeRange));
    assert_eq!(add(&mut ctx, 121, 120, 1, 2), Err(ErrorCode::InvalidStrikeRange));
    assert_eq!(ctx, before);
    assert_eq!(add(&mut ctx, 119, 120, 1, 2), Ok(()));
}

#[test]
fn add_asset_rejects_an_empty_expiry_range() {
    let mut ctx = add_ctx(akey(90));
    let before = ctx;
    assert_eq!(add(&mut ctx, 80, 120, 5, 5), Err(ErrorCode::InvalidExpiryRange));
    assert_eq!(add(&mut ctx, 80, 120, 6, 5), Err(ErrorCode::InvalidExpiryRange));
    assert_eq!(ctx, before);
    assert_eq!(add(&mut ctx, 80, 120, -5, 5), Ok(()));
}

#[test]
fn add_asset_checks_come_in_order() {
    let mut ctx = add_ctx(akey(66));
    assert_eq!(add(&mut ctx, 120, 80, 5, 5), Err(ErrorCode::Unauthorized));
    ctx.authority = akey(90);
    assert_eq!(add(&mut ctx, 120, 80, 5, 5), Err(ErrorCode::InvalidStrikeRange));
    assert_eq!(add(&mut ctx, 80, 120, 5, 5), Err(ErrorCode::InvalidExpiryRange));
}

#[test]
fn update_asset_replaces_given_fields() {
    let mut ctx = UpdateAsset {
        global_state: config(akey(90)),
        asset_config: registered_asset(),
        authority: akey(90),
    };
    assert_eq!(handle_update_asset(&mut ctx, Some(false), None, None, None, None), Ok(()));
    let mut expected = registered_asset();
    expected.enabled = false;
    assert_eq!(ctx.asset_config, expected);

    assert_eq!(
        handle_update_asset(&mut ctx, Some(true), Some(70), Some(130), Some(60), Some(120)),
        Ok(())
    );
    let mut expected = registered_asset();
    expected.min_strike_percentage = 70;
    expected.max_strike_percentage = 130;
    expected.min_expiry_seconds = 60;
    expected.max_expiry_seconds = 120;
    assert_eq!(ctx.asset_config, expected);
}

#[test]
fn update_asset_needs_the_authority() {
    let mut ctx = UpdateAsset {
        global_state: config(akey(90)),
        asset_config: registered_asset(),
        authority: akey(66),
    };
    assert_eq!(
        handle_update_asset(&mut ctx, Some(false), None, None, None, None),
        Err(ErrorCode::Unauthorized)
    );
    assert_eq!(ctx.asset_config, registered_asset());
}

#[test]
fn keys_are_equal_when_their_bytes_are() {
    let mut bytes = [5u8; 32];
    assert_eq!(Pubkey::new(bytes), akey(5));
    assert_eq!(akey(5).to_bytes(), bytes);
    bytes[31] = 6;
    assert_ne!(Pubkey::new(bytes), akey(5));
    bytes[31] = 5;
    bytes[0] = 4;
    assert_ne!(Pubkey::new(bytes), akey(5));
}
