use solation::errors::ErrorCode;
use solation::instructions::market_maker::{
    handle_deposit_liquidity, handle_withdraw_liquidity, DepositLiquidity, WithdrawLiquidity,
};
use solation::instructions::position_request::{handle_confirm_position, ConfirmPosition};
use solation::instructions::settlement::{
    handle_settle_position, settle_cash_secured_put, settle_covered_call, settle_with_update,
    SettlePosition,
};
use solation::oracle::PriceUpdate;
use solation::state::{
    AssetConfig, Escrow, GlobalState, MarketMaker, MarketMakerVault, Position, PositionRequest,
    PositionStatus, Pubkey, Quote, RequestStatus, StrategyType, StrikeQuote,
};
use solation::strategy::{Party, Payout};

const FEED: [u8; 32] = [12; 32];

fn skey(n: u8) -> Pubkey {
    Pubkey::new([n; 32])
}

fn settle_asset(decimals: u8) -> AssetConfig {
    AssetConfig {
        asset_mint: skey(10),
        quote_mint: skey(11),
        pyth_feed_id: FEED,
        enabled: true,
        min_strike_percentage: 80,
        max_strike_percentage: 120,
        min_expiry_seconds: 86_400,
        max_expiry_seconds: 7_776_000,
        decimals,
        bump: 253,
    }
}

fn settle_maker() -> MarketMaker {
    MarketMaker {
        owner: skey(2),
        active: true,
        total_positions: 6,
        completed_positions: 2,
        reputation_score: 100,
        bump: 254,
    }
}

fn settle_vault(total: u64, available: u64, locked: u64) -> MarketMakerVault {
    MarketMakerVault {
        market_maker: skey(3),
        asset_mint: skey(11),
        vault_token_account: skey(111),
        total_deposited: total,
        available_liquidity: available,
        locked_liquidity: locked,
        bump: 250,
        vault_bump: 249,
    }
}

/// An active position of size 3 at strike 100 that expires at 100000.
fn active_position(strategy: StrategyType) -> Position {
    Position {
        position_id: 9,
        user: skey(1),
        market_maker: skey(3),
        strategy,
        asset_mint: skey(10),
        quote_mint: skey(11),
        strike_price: 100,
        premium_paid: 15,
        contract_size: 3,
        created_at: 1_010,
        expiry_timestamp: 100_000,
        settlement_price: None,
        status: PositionStatus::Active,
        user_vault: skey(20),
        mm_vault_locked: skey(21),
        bump: 248,
        user_vault_bump: 247,
        mm_vault_bump: 246,
    }
}

/// The bytes of a fully verified price update account.
fn price_account(feed_id: [u8; 32], price: i64, publish_time: i64) -> Vec<u8> {
    let mut data: Vec<u8> = Vec::new();
    data.extend_from_slice(&[7u8; 32]);
    data.push(1);
    data.extend_from_slice(&feed_id);
    data.extend_from_slice(&price.to_le_bytes());
    data.extend_from_slice(&25u64.to_le_bytes());
    data.extend_from_slice(&(-8i32).to_le_bytes());
    data.extend_from_slice(&publish_time.to_le_bytes());
    data.extend_from_slice(&(publish_time - 1).to_le_bytes());
    data.extend_from_slice(&price.to_le_bytes());
    data.extend_from_slice(&30u64.to_le_bytes());
    data.extend_from_slice(&99u64.to_le_bytes());
    data
}

/// The records of a covered call: 3 units of underlying in the user escrow,
/// the notional 300 in the maker escrow and locked in the maker's vault.
fn call_ctx(price: i64, publish_time: i64) -> SettlePosition {
    SettlePosition {
        position: active_position(StrategyType::CoveredCall),
        asset_config: settle_asset(0),
        market_maker: settle_maker(),
        position_user_vault: Escrow { key: skey(20), amount: 3 },
        position_mm_vault: Escrow { key: skey(21), amount: 300 },
        mm_vault: settle_vault(1_000, 700, 300),
        price_update: price_account(FEED, price, publish_time),
    }
}

/// The records of a cash-secured put: the notional 300 in the user escrow,
/// 3 units of underlying in the maker escrow and locked in the maker's vault.
fn put_ctx(price: i64, publish_time: i64) -> SettlePosition {
    SettlePosition {
        position: active_position(StrategyType::CashSecuredPut),
        asset_config: settle_asset(0),
        market_maker: settle_maker(),
        position_user_vault: Escrow { key: skey(20), amount: 300 },
        position_mm_vault: Escrow { key: skey(21), amount: 3 },
        mm_vault: settle_vault(1_000, 997, 3),
        price_update: price_account(FEED, price, publish_time),
    }
}

fn update(price: i64, publish_time: i64) -> Option<PriceUpdate> {
    Some(PriceUpdate { feed_id: FEED, price, conf: 25, exponent: -8, publish_time })
}

#[test]
fn covered_call_above_the_strike_is_exercised() {
    let mut ctx = call_ctx(120, 100_000);
    let payout = handle_settle_position(&mut ctx, 100_010);
    // The maker receives the underlying, the user the quote currency.
    assert_eq!(
        payout,
        Ok(Payout {
            user_escrow_to: Party::MarketMaker,
            user_escrow_amount: 3,
            maker_escrow_to: Party::User,
            maker_escrow_amount: 300,
        })
    );
    assert_eq!(ctx.position.status, PositionStatus::SettledITM);
    assert_eq!(ctx.position.settlement_price, Some(120));
}

#[test]
fn covered_call_below_the_strike_returns_the_escrows() {
    let mut ctx = call_ctx(80, 100_000);
    let payout = handle_settle_position(&mut ctx, 100_010);
    assert_eq!(
        payout,
        Ok(Payout {
            user_escrow_to: Party::User,
            user_escrow_amount: 3,
            maker_escrow_to: Party::MarketMaker,
            maker_escrow_amount: 300,
        })
    );
    assert_eq!(ctx.position.status, PositionStatus::SettledOTM);
    assert_eq!(ctx.position.settlement_price, Some(80));
}

#[test]
fn cash_secured_put_below_the_strike_is_exercised() {
    let mut ctx = put_ctx(80, 100_000);
    let payout = handle_settle_position(&mut ctx, 100_010);
    // The user receives the underlying, the maker the quote currency.
    assert_eq!(
        payout,
        Ok(Payout {
            user_escrow_to: Party::MarketMaker,
            user_escrow_amount: 300,
            maker_escrow_to: Party::User,
            maker_escrow_amount: 3,
        })
    );
    assert_eq!(ctx.position.status, PositionStatus::SettledITM);
}

#[test]
fn cash_secured_put_above_the_strike_returns_the_escrows() {
    let mut ctx = put_ctx(120, 100_000);
    let payout = handle_settle_position(&mut ctx, 100_010);
    assert_eq!(
        payout,
        Ok(Payout {
            user_escrow_to: Party::User,
            user_escrow_amount: 300,
            maker_escrow_to: Party::MarketMaker,
            maker_escrow_amount: 3,
        })
    );
    assert_eq!(ctx.position.status, PositionStatus::SettledOTM);
}

#[test]
fn price_equal_to_the_strike_is_out_of_the_money() {
    let mut call = call_ctx(100, 100_000);
    assert!(handle_settle_position(&mut call, 100_010).is_ok());
    assert_eq!(call.position.status, PositionStatus::SettledOTM);
    let mut put = put_ctx(100, 100_000);
    assert!(handle_settle_position(&mut put, 100_010).is_ok());
    assert_eq!(put.position.status, PositionStatus::SettledOTM);
}

#[test]
fn settlement_updates_every_record() {
    let mut ctx = call_ctx(120, 100_000);
    assert!(handle_settle_position(&mut ctx, 100_010).is_ok());

    let mut expected = call_ctx(120, 100_000);
    expected.position.status = PositionStatus::SettledITM;
    expected.position.settlement_price = Some(120);
    expected.market_maker.completed_positions = 3;
    expected.position_user_vault.amount = 0;
    expected.position_mm_vault.amount = 0;
    // The notional locked at the opening leaves the books; it does not come
    // back as available.
    expected.mm_vault = settle_vault(1_000, 700, 0);
    assert_eq!(ctx, expected);
}

#[test]
fn put_settlement_unlocks_the_contract_size() {
    let mut ctx = put_ctx(120, 100_000);
    assert!(handle_settle_position(&mut ctx, 100_010).is_ok());
    assert_eq!(ctx.mm_vault, settle_vault(1_000, 997, 0));
    assert_eq!(ctx.market_maker.completed_positions, 3);
}

#[test]
fn call_settlement_unlocks_the_scaled_notional() {
    let mut ctx = call_ctx(60_000_000, 100_000);
    ctx.asset_config.decimals = 9;
    ctx.position.strike_price = 50_000_000;
    ctx.position.contract_size = 2_000_000_000;
    ctx.position_user_vault.amount = 2_000_000_000;
    ctx.position_mm_vault.amount = 100_000_000;
    ctx.mm_vault = settle_vault(500_000_000, 0, 100_000_001);
    assert!(handle_settle_position(&mut ctx, 100_010).is_ok());
    assert_eq!(ctx.mm_vault, settle_vault(500_000_000, 0, 1));
}

#[test]
fn second_settlement_fails_and_changes_nothing() {
    let mut ctx = call_ctx(120, 100_000);
    assert!(handle_settle_position(&mut ctx, 100_010).is_ok());
    assert_ne!(ctx.position.status, PositionStatus::Active);
    let settled = ctx.clone();
    assert_eq!(handle_settle_position(&mut ctx, 100_011), Err(ErrorCode::PositionNotActive));
    assert_eq!(ctx, settled);
    // Whatever the price update says the second time.
    ctx.price_update = price_account(FEED, 80, 100_011);
    let settled = ctx.clone();
    assert_eq!(handle_settle_position(&mut ctx, 100_012), Err(ErrorCode::PositionNotActive));
    assert_eq!(ctx, settled);
}

#[test]
fn settlement_before_expiry_is_refused() {
    let mut ctx = call_ctx(120, 99_990);
    let before = ctx.clone();
    assert_eq!(handle_settle_position(&mut ctx, 99_999), Err(ErrorCode::PositionNotExpired));
    assert_eq!(ctx, before);
    assert!(handle_settle_position(&mut ctx, 100_000).is_ok());
}

#[test]
fn settlement_with_a_stale_price_is_refused_and_can_be_retried() {
    let mut ctx = call_ctx(120, 100_000);
    let before = ctx.clone();
    assert_eq!(handle_settle_position(&mut ctx, 100_060), Err(ErrorCode::PriceTooStale));
    assert_eq!(ctx, before);
    assert_eq!(ctx.position.status, PositionStatus::Active);
    ctx.price_update = price_account(FEED, 120, 100_050);
    assert!(handle_settle_position(&mut ctx, 100_060).is_ok());
}

#[test]
fn settlement_with_another_feed_is_refused() {
    let mut ctx = call_ctx(120, 100_000);
    ctx.price_update = price_account([13; 32], 120, 100_000);
    let before = ctx.clone();
    assert_eq!(handle_settle_position(&mut ctx, 100_010), Err(ErrorCode::PythFeedIdMismatch));
    assert_eq!(ctx, before);
}

#[test]
fn settlement_with_unreadable_price_data_is_refused() {
    let mut ctx = call_ctx(120, 100_000);
    ctx.price_update = vec![1, 2, 3];
    let before = ctx.clone();
    assert_eq!(handle_settle_position(&mut ctx, 100_010), Err(ErrorCode::PriceTooStale));
    assert_eq!(ctx, before);
}

#[test]
fn settlement_takes_the_size_of_a_negative_price() {
    let mut ctx = call_ctx(-120, 100_000);
    assert!(handle_settle_position(&mut ctx, 100_010).is_ok());
    assert_eq!(ctx.position.settlement_price, Some(120));
    assert_eq!(ctx.position.status, PositionStatus::SettledITM);
}

#[test]
fn settlement_checks_come_in_order() {
    // Settled and not expired and a bad feed: the status is reported.
    let mut ctx = call_ctx(120, 0);
    ctx.position.status = PositionStatus::SettledOTM;
    ctx.price_update = price_account([13; 32], 120, 0);
    assert_eq!(handle_settle_position(&mut ctx, 5), Err(ErrorCode::PositionNotActive));
    ctx.position.status = PositionStatus::Active;
    assert_eq!(handle_settle_position(&mut ctx, 5), Err(ErrorCode::PositionNotExpired));
    assert_eq!(handle_settle_position(&mut ctx, 200_000), Err(ErrorCode::PythFeedIdMismatch));
}

#[test]
fn settlement_of_broken_books_is_refused() {
    let mut ctx = call_ctx(120, 100_000);
    ctx.mm_vault = settle_vault(1_000, 700, 299);
    let before = ctx.clone();
    assert_eq!(handle_settle_position(&mut ctx, 100_010), Err(ErrorCode::MathOverflow));
    assert_eq!(ctx, before);
}

#[test]
fn settlement_counter_overflow_is_refused() {
    let mut ctx = call_ctx(120, 100_000);
    ctx.market_maker.completed_positions = u64::MAX;
    let before = ctx.clone();
    assert_eq!(handle_settle_position(&mut ctx, 100_010), Err(ErrorCode::MathOverflow));
    assert_eq!(ctx, before);
}

#[test]
fn refused_settlement_keeps_an_earlier_settlement_price() {
    let mut ctx = call_ctx(120, 100_000);
    ctx.position.settlement_price = Some(7);
    ctx.mm_vault = settle_vault(1_000, 700, 0);
    let before = ctx.clone();
    assert_eq!(handle_settle_position(&mut ctx, 100_010), Err(ErrorCode::MathOverflow));
    assert_eq!(ctx, before);
}

#[test]
fn settlement_pays_out_whatever_the_escrows_hold() {
    let mut ctx = call_ctx(120, 100_000);
    ctx.position_user_vault.amount = 5;
    ctx.position_mm_vault.amount = 301;
    let payout = handle_settle_position(&mut ctx, 100_010).unwrap();
    assert_eq!(payout.user_escrow_amount, 5);
    assert_eq!(payout.maker_escrow_amount, 301);
    assert_eq!(ctx.position_user_vault.amount, 0);
    assert_eq!(ctx.position_mm_vault.amount, 0);
}

#[test]
fn settle_with_a_decoded_update() {
    let mut ctx = call_ctx(0, 0);
    assert_eq!(
        settle_with_update(&mut ctx, update(101, 100_000), 100_059),
        Ok(Payout {
            user_escrow_to: Party::MarketMaker,
            user_escrow_amount: 3,
            maker_escrow_to: Party::User,
            maker_escrow_amount: 300,
        })
    );
    let mut ctx = call_ctx(0, 0);
    assert_eq!(settle_with_update(&mut ctx, None, 100_059), Err(ErrorCode::PriceTooStale));
    assert_eq!(
        settle_with_update(&mut ctx, update(101, 100_000), 100_060),
        Err(ErrorCode::PriceTooStale)
    );
}

#[test]
fn settle_by_the_rules_of_each_strategy() {
    // At 120 against a strike of 100 the call is in the money and the put is
    // not, whichever strategy the position records.
    let mut ctx = call_ctx(0, 0);
    let payout = settle_covered_call(&mut ctx, 120).unwrap();
    assert_eq!(payout.user_escrow_to, Party::MarketMaker);
    assert_eq!(ctx.position.status, PositionStatus::SettledITM);
    assert_eq!(ctx.position.settlement_price, None);
    assert_eq!(ctx.mm_vault, settle_vault(1_000, 700, 0));

    let mut ctx = put_ctx(0, 0);
    let payout = settle_cash_secured_put(&mut ctx, 120).unwrap();
    assert_eq!(payout.user_escrow_to, Party::User);
    assert_eq!(ctx.position.status, PositionStatus::SettledOTM);
    assert_eq!(ctx.mm_vault, settle_vault(1_000, 997, 0));
}

/// The records of a confirmation of a pending request for size 3 at strike
/// 100, with 1000 available in the maker's vault and 500 in its premium
/// vault.
fn confirm_records(strategy: StrategyType) -> ConfirmPosition {
    ConfirmPosition {
        global_state: GlobalState {
            authority: skey(90),
            treasury: skey(91),
            protocol_fee_bps: 0,
            paused: false,
            total_volume: 0,
            total_positions: 0,
            bump: 255,
        },
        market_maker: settle_maker(),
        market_maker_key: skey(3),
        position_request: PositionRequest {
            request_id: 77,
            user: skey(1),
            market_maker: skey(3),
            quote: skey(4),
            strategy,
            asset_mint: skey(10),
            quote_mint: skey(11),
            strike_price: 100,
            contract_size: 3,
            premium: 15,
            created_at: 1_000,
            expires_at: 1_030,
            status: RequestStatus::Pending,
            bump: 251,
        },
        quote: Quote {
            market_maker: skey(3),
            asset_mint: skey(10),
            quote_mint: skey(11),
            strategy,
            strikes: vec![StrikeQuote {
                strike_price: 100,
                premium_per_contract: 5,
                available_contracts: 10,
            }],
            expiry_timestamp: 100_000,
            min_size: 1,
            max_size: 10,
            last_updated: 900,
            active: true,
            bump: 252,
        },
        asset_config: settle_asset(0),
        position: active_position(strategy),
        position_user_vault: Escrow { key: skey(20), amount: 0 },
        position_mm_vault: Escrow { key: skey(21), amount: 0 },
        mm_vault: settle_vault(1_000, 1_000, 0),
        mm_premium_vault: settle_vault(500, 500, 0),
        mm_owner: skey(2),
        position_bump: 248,
        position_user_vault_bump: 247,
        position_mm_vault_bump: 246,
    }
}

/// The records of the settlement of the position that `confirm` opened.
fn settlement_of(confirm: &ConfirmPosition, price: i64) -> SettlePosition {
    SettlePosition {
        position: confirm.position,
        asset_config: confirm.asset_config,
        market_maker: confirm.market_maker,
        position_user_vault: confirm.position_user_vault,
        position_mm_vault: confirm.position_mm_vault,
        mm_vault: confirm.mm_vault,
        price_update: price_account(FEED, price, 100_000),
    }
}

#[test]
fn escrow_balance_is_conserved_from_confirmation_to_settlement() {
    for strategy in [StrategyType::CoveredCall, StrategyType::CashSecuredPut] {
        for price in [80i64, 100, 120] {
            let mut confirm = confirm_records(strategy);
            let routing = handle_confirm_position(&mut confirm, 9, 1_010).unwrap();
            let posted = routing.user_collateral + routing.maker_collateral;
            assert_eq!(posted, 303);
            assert_eq!(
                confirm.position_user_vault.amount + confirm.position_mm_vault.amount,
                posted
            );

            let mut settle = settlement_of(&confirm, price);
            let payout = handle_settle_position(&mut settle, 100_010).unwrap();
            assert_eq!(payout.user_escrow_amount + payout.maker_escrow_amount, posted);
            assert_eq!(settle.position_user_vault.amount, 0);
            assert_eq!(settle.position_mm_vault.amount, 0);
            // What was locked at the opening is unlocked at the settlement.
            assert_eq!(settle.mm_vault.locked_liquidity, 0);
            assert_eq!(
                settle.mm_vault.available_liquidity,
                1_000 - routing.maker_collateral
            );
        }
    }
}

#[test]
fn vault_invariant_holds_from_deposit_to_settlement() {
    fn check(vault: &MarketMakerVault) {
        assert!(
            vault.available_liquidity as u128 + vault.locked_liquidity as u128
                <= vault.total_deposited as u128
        );
    }
    let maker = settle_maker();
    let owner = maker.owner;

    // deposit
    let mut deposit =
        DepositLiquidity { market_maker: maker, mm_vault: settle_vault(0, 0, 0), owner };
    assert_eq!(handle_deposit_liquidity(&mut deposit, 1_000), Ok(()));
    check(&deposit.mm_vault);
    assert_eq!(deposit.mm_vault, settle_vault(1_000, 1_000, 0));

    // lock: a confirmed covered call locks its notional of 300
    let mut confirm = confirm_records(StrategyType::CoveredCall);
    confirm.mm_vault = deposit.mm_vault;
    assert!(handle_confirm_position(&mut confirm, 9, 1_010).is_ok());
    check(&confirm.mm_vault);
    assert_eq!(confirm.mm_vault, settle_vault(1_000, 700, 300));

    // withdraw: more than is available is refused and changes nothing
    let mut withdraw =
        WithdrawLiquidity { market_maker: maker, mm_vault: confirm.mm_vault, owner };
    assert_eq!(
        handle_withdraw_liquidity(&mut withdraw, 701),
        Err(ErrorCode::InsufficientLiquidity)
    );
    check(&withdraw.mm_vault);
    assert_eq!(handle_withdraw_liquidity(&mut withdraw, 200), Ok(()));
    check(&withdraw.mm_vault);
    assert_eq!(withdraw.mm_vault, settle_vault(1_000, 500, 300));

    // unlock: the settlement releases the 300
    confirm.mm_vault = withdraw.mm_vault;
    let mut settle = settlement_of(&confirm, 120);
    assert!(handle_settle_position(&mut settle, 100_010).is_ok());
    check(&settle.mm_vault);
    assert_eq!(settle.mm_vault, settle_vault(1_000, 500, 0));
}
